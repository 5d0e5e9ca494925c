//! Stand-in entry points for the smoke-test harness.

use vstd::prelude::*;

verus! {

/// Primary stand-in case: always succeeds.
pub fn main_ffi() -> (r: bool)
    ensures
        r,
{
    true
}

/// Secondary stand-in case: always reports failure.
pub fn secondary_function() -> (r: bool)
    ensures
        !r,
{
    false
}

} // verus!
