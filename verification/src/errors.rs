use vstd::prelude::*;

verus! {

/// A value handed to a validating constructor failed the validity
/// predicate. Carries the name of the offending field and the reason
/// the check failed, so a caller can report the failure precisely.
#[derive(Debug)]
pub struct InvalidArgument {
    pub field_name: String,
    pub reason: String,
}

} // verus!
