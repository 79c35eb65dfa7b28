//! Small text helpers shared by the marshaling and listener modules.

use vstd::prelude::*;

verus! {

/// String-slice equality, decided through owned-string comparison.
pub fn str_eq(a: &str, b: &str) -> (r: bool)
    ensures
        r == (a@ == b@),
{
    let x: String = a.to_owned();
    let y: String = b.to_owned();
    x == y
}

} // verus!
