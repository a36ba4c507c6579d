//! The one string-building primitive the library takes on trust.

use vstd::prelude::*;

verus! {

/// Relies on std's String::push_str: appends the given slice to the end of
/// the string, so the new contents are the old contents followed by the
/// slice.
pub assume_specification[ String::push_str ](s: &mut String, other: &str)
    ensures
        final(s)@ == old(s)@ + other@,
;

} // verus!
