//! The rule for a password that was typed twice.

use vstd::prelude::*;

verus! {

/// Accepts a password that was entered twice only where both entries agree.
pub fn confirm_password(first: String, second: String) -> (r: Option<String>)
    ensures
        r is Some <==> first@ == second@,
        r matches Some(password) ==> password@ == first@,
{
    if first == second {
        Some(first)
    } else {
        None
    }
}

} // verus!
