//! Shader binary intake.
//!
//! The two shader stages arrive as precompiled binaries, opaque to this
//! core except for their framing: a binary is a whole number of 32-bit
//! little-endian words. Reassembling the words is verified here; loading
//! the words into the driver stays in the unverified shell.

use vstd::prelude::*;

verus! {

use vstd::bytes::{spec_u32_from_le_bytes, u32_from_le_bytes};
use vstd::slice::slice_subrange;
use crate::error::VulkanError;

/// Reassembles a shader binary into its 32-bit little-endian words.
///
/// A binary whose length is not a multiple of four is malformed and is
/// rejected; any other binary yields exactly one word per four bytes.
pub fn spirv_words(code: &[u8]) -> (r: Result<Vec<u32>, VulkanError>)
    ensures
        code@.len() % 4 != 0 ==> r == Err::<Vec<u32>, VulkanError>(
            VulkanError::ShaderModuleCreationError,
        ),
        code@.len() % 4 == 0 ==> (r matches Ok(words) && words@.len() == code@.len() / 4 && (
        forall|k: int|
            0 <= k < words@.len() ==> #[trigger] words@[k] == spec_u32_from_le_bytes(
                code@.subrange(4 * k, 4 * k + 4),
            ))),
{
    if code.len() % 4 != 0 {
        return Err(VulkanError::ShaderModuleCreationError);
    }
    let len: usize = code.len();
    let n = len / 4;
    proof {
        assert(len == 4 * (len as int / 4));
    }
    let mut words: Vec<u32> = Vec::new();
    let mut i: usize = 0;
    while i < n
        invariant
            len == code@.len(),
            len % 4 == 0,
            n == len / 4,
            4 * n <= len,
            i <= n,
            words@.len() == i,
            forall|k: int|
                0 <= k < i ==> #[trigger] words@[k] == spec_u32_from_le_bytes(
                    code@.subrange(4 * k, 4 * k + 4),
                ),
        decreases n - i,
    {
        let chunk = slice_subrange(code, 4 * i, 4 * i + 4);
        let word = u32_from_le_bytes(chunk);
        words.push(word);
        i = i + 1;
    }
    Ok(words)
}

} // verus!
