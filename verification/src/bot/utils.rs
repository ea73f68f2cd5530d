//! Small shared helpers.
use vstd::prelude::*;

verus! {

/// The default value of a boolean wire field that is absent.
pub fn falsum() -> (b: bool)
    ensures
        b == false,
{
    false
}

} // verus!
