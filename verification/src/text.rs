//! Small verified helpers over strings.

use vstd::prelude::*;
use vstd::string::StringExecFns;

verus! {

/// Compares two string slices by their character sequences.
pub fn str_eq(a: &str, b: &str) -> (r: bool)
    ensures
        r == (a@ == b@),
{
    let owned_a = a.to_owned();
    let owned_b = b.to_owned();
    owned_a == owned_b
}

} // verus!
