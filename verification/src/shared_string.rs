use vstd::prelude::*;

use std::collections::hash_map::DefaultHasher;
use std::hash::Hasher;
use std::sync::Arc;

use crate::correctness::is_valid_string;
use crate::errors::InvalidArgument;
use vstd::std_specs::hash::DefaultHasherAdditionalSpecFns;
use vstd::utf8::encode_utf8;

verus! {

/// The hash of a string's content: the value a fresh standard hasher
/// yields after one write of the content's byte encoding. A pure
/// function of the content alone, so equal strings hash equal and the
/// value is stable within one process run.
pub open spec fn string_hash(s: Seq<char>) -> u64 {
    DefaultHasher::spec_finish(Seq::<Seq<u8>>::empty().push(encode_utf8(s)))
}

/// An immutable string payload shared by reference count.
///
/// Construction enforces the validity predicate once; after that the
/// content never changes, cloning shares the buffer without copying
/// bytes, and dropping the last owner releases the allocation.
#[derive(Debug)]
pub struct SharedString {
    value: Arc<String>,
}

impl View for SharedString {
    type V = Seq<char>;

    closed spec fn view(&self) -> Seq<char> {
        self.value@
    }
}

impl SharedString {
    /// The invariant every constructed value satisfies: the content
    /// passed the validity predicate.
    pub open spec fn wf(&self) -> bool {
        is_valid_string(self@)
    }

    /// Validates `raw` and wraps it in a fresh shared allocation.
    /// Fails with [`InvalidArgument`] naming `field_name` exactly when
    /// the content is invalid.
    pub fn new(raw: &str, field_name: &str) -> (r: Result<SharedString, InvalidArgument>)
        ensures
            r is Ok <==> is_valid_string(raw@),
            r matches Ok(v) ==> v@ == raw@ && v.wf(),
            r matches Err(e) ==> e.field_name@ == field_name@,
    {
        match crate::correctness::valid_string(raw, field_name) {
            Ok(()) => Ok(SharedString { value: Arc::new(raw.to_owned()) }),
            Err(e) => Err(e),
        }
    }

    /// Wraps content already known to be valid, without re-checking it.
    pub fn from_valid(raw: &str) -> (r: SharedString)
        requires
            is_valid_string(raw@),
        ensures
            r@ == raw@,
            r.wf(),
    {
        SharedString { value: Arc::new(raw.to_owned()) }
    }

    /// Borrows the content.
    pub fn as_str(&self) -> (r: &str)
        ensures
            r@ == self@,
    {
        self.value.as_str()
    }

    /// Renders the content as an owned string.
    pub fn to_string_value(&self) -> (r: String)
        ensures
            r@ == self@,
    {
        self.value.as_str().to_owned()
    }

    /// Whether two payloads hold equal content, regardless of whether
    /// they share an allocation.
    pub fn content_eq(&self, other: &SharedString) -> (r: bool)
        ensures
            r <==> self@ == other@,
    {
        *self.value == *other.value
    }

    /// Hashes the content with a fresh standard hasher. The result is
    /// [`string_hash`] of the content: determined by the content alone.
    pub fn content_hash(&self) -> (r: u64)
        ensures
            r == string_hash(self@),
    {
        let mut hasher = DefaultHasher::new();
        hasher.write(self.value.as_str().as_bytes());
        hasher.finish()
    }
}

impl Clone for SharedString {
    /// Shares the underlying allocation; no bytes are copied and the
    /// content is not re-validated.
    fn clone(&self) -> (r: Self)
        ensures
            r == *self,
    {
        SharedString { value: Arc::clone(&self.value) }
    }
}

} // verus!
