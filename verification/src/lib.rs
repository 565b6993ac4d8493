//! Validated, shareable string identifiers.
//!
//! Each identifier type wraps an immutable, reference-counted string
//! that is checked against a validity predicate exactly once, at
//! construction. Cloning shares the underlying buffer; equality,
//! hashing and rendering are pure functions of the content.

pub mod client_order_id;
pub mod correctness;
pub mod errors;
pub mod order_list_id;
pub mod shared_string;

pub use client_order_id::ClientOrderId;
pub use order_list_id::OrderListId;

pub use correctness::is_valid_string;
pub use correctness::valid_string;
pub use errors::InvalidArgument;
