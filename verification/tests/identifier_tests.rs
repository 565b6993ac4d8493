use identifiers::client_order_id::client_order_id_clone;
use identifiers::client_order_id::client_order_id_drop;
use identifiers::client_order_id::client_order_id_eq;
use identifiers::client_order_id::client_order_id_hash;
use identifiers::client_order_id::client_order_id_new;
use identifiers::order_list_id::order_list_id_clone;
use identifiers::order_list_id::order_list_id_drop;
use identifiers::order_list_id::order_list_id_eq;
use identifiers::order_list_id::order_list_id_hash;
use identifiers::order_list_id::order_list_id_new;
use identifiers::valid_string;
use identifiers::ClientOrderId;
use identifiers::OrderListId;

#[test]
fn client_order_id_test_equality() {
    let id1 = ClientOrderId::new("O-20200814-102234-001-001-1").unwrap();
    let id2 = ClientOrderId::new("O-20200814-102234-001-001-2").unwrap();
    assert_eq!(id1, id1);
    assert_ne!(id1, id2);
}

#[test]
fn client_order_id_test_string_reprs() {
    let id = ClientOrderId::new("O-20200814-102234-001-001-1").unwrap();
    assert_eq!(id.display(), "O-20200814-102234-001-001-1");
    assert_eq!(format!("{}", id.display()), "O-20200814-102234-001-001-1");
}

#[test]
fn test_client_order_id_drop() {
    let id = ClientOrderId::new("O-20200814-102234-001-001-1").unwrap();

    client_order_id_drop(id); // No panic
}

#[test]
fn order_list_id_test_equality() {
    let id1 = OrderListId::new("001").unwrap();
    let id2 = OrderListId::new("002").unwrap();
    assert_eq!(id1, id1);
    assert_ne!(id1, id2);
}

#[test]
fn order_list_id_test_string_reprs() {
    let id = OrderListId::new("001").unwrap();
    assert_eq!(id.display(), "001");
    assert_eq!(format!("{}", id.display()), "001");
}

#[test]
fn test_order_list_id_drop() {
    let id = OrderListId::new("001").unwrap();

    order_list_id_drop(id); // No panic
}

#[test]
fn test_display_and_debug_render_the_content() {
    let id = ClientOrderId::new("O-20200814-102234-001-001-1").unwrap();
    assert_eq!(id.display(), "O-20200814-102234-001-001-1");
    assert!(id.debug().contains("O-20200814-102234-001-001-1"));

    let id = OrderListId::new("001").unwrap();
    assert_eq!(id.display(), "001");
    assert!(id.debug().contains("001"));
}

#[test]
fn test_debug_is_the_quoted_content() {
    let id = ClientOrderId::new("O-1").unwrap();
    assert_eq!(id.debug(), "\"O-1\"");

    let id = OrderListId::new("001").unwrap();
    assert_eq!(id.debug(), "\"001\"");
}

#[test]
fn test_equality_follows_content_across_allocations() {
    let a = ClientOrderId::new("O-1").unwrap();
    let b = ClientOrderId::new("O-1").unwrap();
    let c = ClientOrderId::new("O-2").unwrap();
    assert_eq!(a, b);
    assert_ne!(a, c);

    let a = OrderListId::new("001").unwrap();
    let b = OrderListId::new("001").unwrap();
    let c = OrderListId::new("002").unwrap();
    assert_eq!(a, b);
    assert_ne!(a, c);
}

#[test]
fn test_equal_values_hash_equal() {
    let a = ClientOrderId::new("O-1").unwrap();
    let b = ClientOrderId::new("O-1").unwrap();
    assert_eq!(client_order_id_hash(&a), client_order_id_hash(&b));

    let a = OrderListId::new("001").unwrap();
    let b = OrderListId::new("001").unwrap();
    assert_eq!(order_list_id_hash(&a), order_list_id_hash(&b));
}

#[test]
fn test_clone_equals_the_original() {
    let a = ClientOrderId::new("O-1").unwrap();
    let b = a.clone();
    assert_eq!(a, b);
    assert_eq!(b.display(), "O-1");
    assert_eq!(client_order_id_hash(&a), client_order_id_hash(&b));

    let a = OrderListId::new("001").unwrap();
    let b = a.clone();
    assert_eq!(a, b);
    assert_eq!(b.display(), "001");
    assert_eq!(order_list_id_hash(&a), order_list_id_hash(&b));
}

#[test]
fn test_empty_string_construction_fails() {
    let r = ClientOrderId::new("");
    let e = r.expect_err("empty content must be rejected");
    assert_eq!(e.field_name, "`ClientOrderId` value");
    assert_eq!(e.reason, "string was empty");

    let r = OrderListId::new("");
    let e = r.expect_err("empty content must be rejected");
    assert_eq!(e.field_name, "`OrderListId` value");
    assert_eq!(e.reason, "string was empty");
}

#[test]
fn test_valid_string_accepts_exactly_non_empty_content() {
    assert!(valid_string("001", "field").is_ok());
    let e = valid_string("", "field").expect_err("empty content must be rejected");
    assert_eq!(e.field_name, "field");
    assert_eq!(e.reason, "string was empty");
}

#[test]
fn test_default_is_the_fixed_sentinel() {
    let id = ClientOrderId::default();
    assert_eq!(id.display(), "O-123456789");
    assert_eq!(id, ClientOrderId::new("O-123456789").unwrap());
}

#[test]
fn test_boundary_operations_client_order_id() {
    let id = client_order_id_new("O-20200814-102234-001-001-1");
    assert_eq!(id.display(), "O-20200814-102234-001-001-1");

    let copy = client_order_id_clone(&id);
    assert_eq!(client_order_id_eq(&id, &copy), 1);
    assert_eq!(client_order_id_hash(&id), client_order_id_hash(&copy));

    let other = client_order_id_new("O-20200814-102234-001-001-2");
    assert_eq!(client_order_id_eq(&id, &other), 0);

    client_order_id_drop(id);
    client_order_id_drop(copy);
    client_order_id_drop(other);
}

#[test]
fn test_boundary_operations_order_list_id() {
    let id = order_list_id_new("001");
    assert_eq!(id.display(), "001");

    let copy = order_list_id_clone(&id);
    assert_eq!(order_list_id_eq(&id, &copy), 1);
    assert_eq!(order_list_id_hash(&id), order_list_id_hash(&copy));

    let other = order_list_id_new("002");
    assert_eq!(order_list_id_eq(&id, &other), 0);

    order_list_id_drop(id);
    order_list_id_drop(copy);
    order_list_id_drop(other);
}

#[test]
fn test_hash_is_stable_within_a_run() {
    let id = ClientOrderId::new("O-1").unwrap();
    let first = client_order_id_hash(&id);
    let second = client_order_id_hash(&id);
    assert_eq!(first, second);
}
