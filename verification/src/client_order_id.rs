use vstd::prelude::*;

use crate::correctness::is_valid_string;
use crate::errors::InvalidArgument;
use crate::shared_string::SharedString;
use crate::shared_string::string_hash;
use vstd::std_specs::cmp::PartialEqSpec;
use vstd::string::StringExecFns;

verus! {

/// A client-assigned order identifier: an immutable, validated,
/// reference-counted string with value semantics. Distinct from every
/// other identifier tag at the type level, even for equal content.
#[derive(Debug)]
pub struct ClientOrderId {
    value: SharedString,
}

impl View for ClientOrderId {
    type V = Seq<char>;

    closed spec fn view(&self) -> Seq<char> {
        self.value@
    }
}

impl ClientOrderId {
    /// The invariant every constructed value satisfies: the content
    /// passed the validity predicate at construction.
    pub open spec fn wf(&self) -> bool {
        is_valid_string(self@)
    }

    /// What [`ClientOrderId::display`] renders: the bare content.
    pub open spec fn spec_display(&self) -> Seq<char> {
        self@
    }

    /// What [`ClientOrderId::debug`] renders: the content surrounded
    /// by quotes, marking it as a quoted value for human inspection.
    pub open spec fn spec_debug(&self) -> Seq<char> {
        seq!['"'] + self@ + seq!['"']
    }

    /// Validates `s` and wraps it in a fresh shared allocation.
    ///
    /// Returns `Ok` exactly when `s` is valid (non-empty); otherwise
    /// an [`InvalidArgument`] naming this identifier's field.
    pub fn new(s: &str) -> (r: Result<ClientOrderId, InvalidArgument>)
        ensures
            r is Ok <==> is_valid_string(s@),
            r matches Ok(id) ==> id@ == s@ && id.wf(),
            r matches Err(e) ==> e.field_name@ == "`ClientOrderId` value"@,
    {
        match SharedString::new(s, "`ClientOrderId` value") {
            Ok(v) => Ok(ClientOrderId { value: v }),
            Err(e) => Err(e),
        }
    }

    /// Renders the bare content.
    pub fn display(&self) -> (r: String)
        ensures
            r@ == self.spec_display(),
    {
        self.value.to_string_value()
    }

    /// Renders the content as a quoted value for human inspection.
    pub fn debug(&self) -> (r: String)
        ensures
            r@ == self.spec_debug(),
    {
        proof {
            reveal_strlit("\"");
        }
        let mut out = String::from_str("\"");
        out.append(self.value.as_str());
        out.append("\"");
        proof {
            assert(out@ =~= self.spec_debug());
        }
        out
    }
}

impl Clone for ClientOrderId {
    /// Shares the underlying buffer; no bytes are copied and the
    /// content is not re-validated.
    fn clone(&self) -> (r: Self)
        ensures
            r == *self,
    {
        ClientOrderId { value: self.value.clone() }
    }
}

impl PartialEq for ClientOrderId {
    /// Structural, content-based equality: two identifiers compare
    /// equal exactly when their contents are equal, whether or not
    /// they share an allocation.
    fn eq(&self, other: &Self) -> (r: bool) {
        self.value.content_eq(&other.value)
    }
}

impl vstd::std_specs::cmp::PartialEqSpecImpl for ClientOrderId {
    open spec fn obeys_eq_spec() -> bool {
        true
    }

    open spec fn eq_spec(&self, other: &Self) -> bool {
        self@ == other@
    }
}

impl Default for ClientOrderId {
    /// The fixed sentinel value for slots where no real identifier has
    /// been assigned yet. A compile-time-known valid constant, so no
    /// validation is needed; distinct from the absence of a value.
    fn default() -> (r: Self)
        ensures
            r@ == "O-123456789"@,
            r.wf(),
    {
        proof {
            reveal_strlit("O-123456789");
        }
        ClientOrderId { value: SharedString::from_valid("O-123456789") }
    }
}

/// Boundary constructor: builds an identifier from text already
/// decoded at the foreign boundary. The boundary has no channel to
/// report a structured error, so the caller must have established
/// validity before the call; the boundary layer aborts otherwise.
pub fn client_order_id_new(s: &str) -> (r: ClientOrderId)
    requires
        is_valid_string(s@),
    ensures
        r@ == s@,
        r.wf(),
{
    ClientOrderId { value: SharedString::from_valid(s) }
}

/// Boundary clone: borrows the input (the caller keeps ownership) and
/// returns a new, independently owned value equal to it.
pub fn client_order_id_clone(client_order_id: &ClientOrderId) -> (r: ClientOrderId)
    ensures
        r == *client_order_id,
{
    client_order_id.clone()
}

/// Boundary drop: consumes an owned value, releasing its share of the
/// underlying buffer. The foreign caller must call this exactly once
/// per value it owns; the last release frees the allocation.
pub fn client_order_id_drop(client_order_id: ClientOrderId) {
    let _ = client_order_id;
}

/// Boundary equality test: pure, borrows both sides, and reports
/// content equality as a byte.
pub fn client_order_id_eq(lhs: &ClientOrderId, rhs: &ClientOrderId) -> (r: u8)
    ensures
        r == (if lhs@ == rhs@ { 1u8 } else { 0u8 }),
{
    if lhs == rhs {
        1
    } else {
        0
    }
}

/// Boundary hash: pure, borrows the value, and returns the fixed
/// content hash, stable within one process run.
pub fn client_order_id_hash(client_order_id: &ClientOrderId) -> (r: u64)
    ensures
        r == string_hash(client_order_id@),
{
    client_order_id.value.content_hash()
}

/// For every identifier built from a valid string, the display
/// rendering is exactly that string, and the debug rendering contains
/// it between the surrounding quote marks.
pub proof fn lemma_new_display_debug(s: Seq<char>, id: ClientOrderId)
    requires
        is_valid_string(s),
        id@ == s,
    ensures
        id.spec_display() == s,
        id.spec_debug().len() == s.len() + 2,
        id.spec_debug().subrange(1, s.len() as int + 1) == s,
{
    assert(id.spec_debug().subrange(1, s.len() as int + 1) =~= s);
}

/// Two identifiers are equal exactly when the strings they were built
/// from are equal; and when they are equal, their hashes are equal.
pub proof fn lemma_eq_iff_content(s: Seq<char>, t: Seq<char>, a: ClientOrderId, b: ClientOrderId)
    requires
        a@ == s,
        b@ == t,
    ensures
        a.eq_spec(&b) <==> s == t,
        s == t ==> string_hash(a@) == string_hash(b@),
{
}

} // verus!
