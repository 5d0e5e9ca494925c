//! Verified core of a minimal Vulkan-style triangle renderer.
//!
//! The library models the bring-up and per-frame protocol of an explicit
//! GPU graphics context on plain values: adapter and queue-family selection,
//! swapchain negotiation, render-pass/pipeline/command configuration, the
//! static triangle geometry, and the double-buffered frame scheduler.
//! The unverified shell around it performs the actual driver calls and
//! window-system I/O, feeding their results back in as plain values.

pub mod adapter;
pub mod commands;
pub mod device;
pub mod error;
pub mod float_bits;
pub mod geometry;
pub mod instance;
pub mod lifecycle;
pub mod pipeline;
pub mod scheduler;
pub mod shader;
pub mod vertex;
pub mod swapchain;
pub mod triangle;

use vstd::prelude::*;

verus! {

use vstd::string::StringExecFns;
use crate::triangle::{main_ffi, secondary_function};

/// Runs one named smoke-test case and reports its boolean outcome.
///
/// Returns `Ok` exactly for the two known case names; any other name is
/// reported back as an error naming the unknown case.
pub fn run_test_case(test_name: &str) -> (r: Result<bool, String>)
    ensures
        test_name@ == "main_ffi"@ ==> r == Ok::<bool, String>(true),
        test_name@ == "secondary_function"@ ==> r == Ok::<bool, String>(false),
        test_name@ != "main_ffi"@ && test_name@ != "secondary_function"@ ==> (r matches Err(m)
            && m@ == "Unknown test case: "@ + test_name@),
{
    proof {
        reveal_strlit("main_ffi");
        reveal_strlit("secondary_function");
        assert("main_ffi"@.len() == 8);
        assert("secondary_function"@.len() == 18);
    }
    if str_eq(test_name, "main_ffi") {
        let result = main_ffi();
        Ok(result)
    } else if str_eq(test_name, "secondary_function") {
        let result = secondary_function();
        Ok(result)
    } else {
        Err(String::from_str("Unknown test case: ").concat(test_name))
    }
}

/// Compares two string slices by their character sequences.
pub(crate) fn str_eq(a: &str, b: &str) -> (r: bool)
    ensures
        r == (a@ == b@),
{
    a.to_owned() == b.to_owned()
}

} // verus!
