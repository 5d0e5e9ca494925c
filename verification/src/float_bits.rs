//! IEEE-754 single-precision bit patterns.
//!
//! The rendering core never computes with floating point: every fractional
//! quantity it hands to the driver (vertex coordinates, colors, queue
//! priority, viewport depth bounds, line width) is carried as the exact
//! 32-bit pattern of the intended single-precision value. The unverified
//! shell reinterprets the bits when filling driver structures.

use vstd::prelude::*;

verus! {

/// Bit pattern of 0.0.
pub const F32_ZERO_BITS: u32 = 0x0000_0000;

/// Bit pattern of 0.5.
pub const F32_HALF_BITS: u32 = 0x3f00_0000;

/// Bit pattern of -0.5.
pub const F32_NEG_HALF_BITS: u32 = 0xbf00_0000;

/// Bit pattern of 1.0.
pub const F32_ONE_BITS: u32 = 0x3f80_0000;

} // verus!
