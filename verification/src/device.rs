//! Logical-device configuration.
//!
//! The device requests one queue per distinct chosen family: when the
//! graphics and present families coincide a single queue is requested.

use vstd::prelude::*;

verus! {

use crate::adapter::QueueFamilyIndices;
use crate::float_bits::F32_ONE_BITS;

/// What the logical device is created with.
#[derive(Clone, Debug)]
pub struct DeviceConfig {
    /// The distinct queue families to request one queue each from.
    pub queue_families: Vec<u32>,
    /// IEEE-754 bit pattern of the single queue's priority, fixed at one.
    pub queue_priority_bits: u32,
    /// The presentation extension is always required.
    pub enable_swapchain_extension: bool,
    /// Whether the validation layer is named on the device as well.
    pub enable_validation_layer: bool,
}

/// Deduplicates the two chosen families: both when they differ, one when
/// they coincide.
pub fn unique_queue_families(graphics_family: u32, present_family: u32) -> (r: Vec<u32>)
    ensures
        graphics_family != present_family ==> r@ == seq![graphics_family, present_family],
        graphics_family == present_family ==> r@ == seq![graphics_family],
        forall|i: int, j: int| 0 <= i < j < r@.len() ==> r@[i] != r@[j],
{
    let mut families: Vec<u32> = Vec::new();
    families.push(graphics_family);
    if graphics_family != present_family {
        families.push(present_family);
        proof {
            assert(families@ =~= seq![graphics_family, present_family]);
        }
    } else {
        proof {
            assert(families@ =~= seq![graphics_family]);
        }
    }
    families
}

/// Builds the logical-device request from the selected queue families.
///
/// Requires a completed selection; the selector only hands one on. One
/// queue is requested per distinct family, at priority one, with the
/// presentation extension enabled.
pub fn build_device_config(indices: &QueueFamilyIndices, validation_enabled: bool) -> (r:
    DeviceConfig)
    requires
        indices.spec_complete(),
    ensures
        indices.graphics_family matches Some(g) && indices.present_family matches Some(p) ==> (if g
            != p {
            r.queue_families@ == seq![g, p]
        } else {
            r.queue_families@ == seq![g]
        }),
        forall|i: int, j: int|
            0 <= i < j < r.queue_families@.len() ==> r.queue_families@[i] != r.queue_families@[j],
        r.queue_priority_bits == F32_ONE_BITS,
        r.enable_swapchain_extension,
        r.enable_validation_layer == validation_enabled,
{
    let graphics_family = match indices.graphics_family {
        Some(g) => g,
        None => 0,  // unreachable: the selection is complete
    };
    let present_family = match indices.present_family {
        Some(p) => p,
        None => 0,  // unreachable: the selection is complete
    };
    DeviceConfig {
        queue_families: unique_queue_families(graphics_family, present_family),
        queue_priority_bits: F32_ONE_BITS,
        enable_swapchain_extension: true,
        enable_validation_layer: validation_enabled,
    }
}

} // verus!
