use vstd::prelude::*;

use crate::errors::InvalidArgument;

verus! {

/// The validity predicate shared by every identifier type: the content
/// must be non-empty. Identifier constructors are the only place this
/// predicate is checked; once a value is constructed it holds forever,
/// because identifiers are immutable.
pub open spec fn is_valid_string(s: Seq<char>) -> bool {
    s.len() > 0
}

/// The sole validation authority for identifier content.
///
/// Returns `Ok(())` exactly when `s` satisfies [`is_valid_string`];
/// otherwise returns an [`InvalidArgument`] naming the offending field.
pub fn valid_string(s: &str, field_name: &str) -> (r: Result<(), InvalidArgument>)
    ensures
        r is Ok <==> is_valid_string(s@),
        r matches Err(e) ==> e.field_name@ == field_name@ && e.reason@ == "string was empty"@,
{
    if s.unicode_len() == 0 {
        Err(InvalidArgument {
            field_name: field_name.to_owned(),
            reason: "string was empty".to_owned(),
        })
    } else {
        Ok(())
    }
}

} // verus!
