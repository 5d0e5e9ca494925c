//! Adapter and queue-family selection.
//!
//! An adapter is modelled by the capability snapshot of its queue families
//! against the target surface: whether each family can take graphics
//! submissions and whether it can present to that surface. The selector
//! picks the first adapter in enumeration order that offers both.

use vstd::prelude::*;

verus! {

use crate::error::VulkanError;

/// Capability snapshot of one queue family with respect to the target surface.
#[derive(Clone, Copy, Debug, PartialEq, Eq, Structural)]
pub struct QueueFamilyCaps {
    /// The family accepts graphics command submissions.
    pub supports_graphics: bool,
    /// The family can present to the target surface.
    pub supports_present: bool,
}

/// Capability snapshot of one adapter: its queue families, in family order.
#[derive(Clone, Debug)]
pub struct AdapterInfo {
    pub queue_families: Vec<QueueFamilyCaps>,
}

/// Some family of the list supports graphics submissions.
pub open spec fn spec_has_graphics(families: Seq<QueueFamilyCaps>) -> bool {
    exists|i: int| 0 <= i < families.len() && families[i].supports_graphics
}

/// Some family of the list can present to the target surface.
pub open spec fn spec_has_present(families: Seq<QueueFamilyCaps>) -> bool {
    exists|i: int| 0 <= i < families.len() && families[i].supports_present
}

/// An adapter qualifies when both capabilities are found among its families.
pub open spec fn spec_suitable(families: Seq<QueueFamilyCaps>) -> bool {
    spec_has_graphics(families) && spec_has_present(families)
}

impl AdapterInfo {
    /// Family counts are reported by the driver as 32-bit values.
    pub open spec fn wf(self) -> bool {
        self.queue_families@.len() <= u32::MAX
    }

    /// This adapter offers both graphics and present capability.
    pub open spec fn spec_suitable(self) -> bool {
        spec_suitable(self.queue_families@)
    }
}

/// The queue-family indices chosen for an adapter, if any were found.
#[derive(Clone, Copy, Debug, PartialEq, Eq, Structural)]
pub struct QueueFamilyIndices {
    /// Index of a family that supports graphics submissions.
    pub graphics_family: Option<u32>,
    /// Index of a family that can present to the target surface.
    pub present_family: Option<u32>,
}

impl QueueFamilyIndices {
    /// Both a graphics and a present family have been found.
    pub open spec fn spec_complete(self) -> bool {
        self.graphics_family is Some && self.present_family is Some
    }

    /// An empty selection: nothing found yet.
    pub fn new() -> (r: Self)
        ensures
            r.graphics_family is None,
            r.present_family is None,
    {
        QueueFamilyIndices { graphics_family: None, present_family: None }
    }

    /// Whether both required families have been found.
    pub fn is_complete(&self) -> (r: bool)
        ensures
            r == self.spec_complete(),
    {
        self.graphics_family.is_some() && self.present_family.is_some()
    }
}

/// Scans an adapter's queue families for a graphics-capable and a
/// present-capable family, stopping as soon as both are found.
///
/// A family index is returned exactly when a family with that capability
/// exists, and any returned index points at such a family.
pub fn find_queue_families(families: &Vec<QueueFamilyCaps>) -> (r: QueueFamilyIndices)
    requires
        families@.len() <= u32::MAX,
    ensures
        r.spec_complete() <==> spec_suitable(families@),
        (r.graphics_family is Some) <==> spec_has_graphics(families@),
        (r.present_family is Some) <==> spec_has_present(families@),
        r.graphics_family matches Some(g) ==> g < families@.len()
            && families@[g as int].supports_graphics,
        r.present_family matches Some(p) ==> p < families@.len()
            && families@[p as int].supports_present,
{
    let mut indices = QueueFamilyIndices::new();
    let mut i: usize = 0;
    while i < families.len() && !indices.is_complete()
        invariant
            families@.len() <= u32::MAX,
            i <= families@.len(),
            indices.graphics_family matches Some(g) ==> g < families@.len()
                && families@[g as int].supports_graphics,
            indices.present_family matches Some(p) ==> p < families@.len()
                && families@[p as int].supports_present,
            (indices.graphics_family is Some) <==> spec_has_graphics(families@.take(i as int)),
            (indices.present_family is Some) <==> spec_has_present(families@.take(i as int)),
        decreases families@.len() - i,
    {
        if families[i].supports_graphics {
            indices.graphics_family = Some(i as u32);
        }
        if families[i].supports_present {
            indices.present_family = Some(i as u32);
        }
        proof {
            assert(families@.take(i + 1 as int)[i as int] == families@[i as int]);
            assert forall|j: int| 0 <= j < i implies families@.take(i + 1 as int)[j]
                == families@.take(i as int)[j] by {}
        }
        i = i + 1;
    }
    proof {
        if i == families@.len() {
            assert(families@.take(i as int) =~= families@);
        }
    }
    indices
}

/// Whether the adapter qualifies: it has both a graphics-capable family and
/// a present-capable family for the target surface.
pub fn is_device_suitable(adapter: &AdapterInfo) -> (r: bool)
    requires
        adapter.wf(),
    ensures
        r == adapter.spec_suitable(),
{
    let indices = find_queue_families(&adapter.queue_families);
    indices.is_complete()
}

/// Picks the first qualifying adapter in enumeration order.
///
/// Every adapter lacking graphics or present capability is rejected; the
/// first adapter with both is chosen, with no scoring or preference.
/// Fails exactly when no adapter qualifies.
pub fn pick_physical_device(adapters: &Vec<AdapterInfo>) -> (r: Result<usize, VulkanError>)
    requires
        forall|j: int| 0 <= j < adapters@.len() ==> (#[trigger] adapters@[j]).wf(),
    ensures
        r matches Ok(i) ==> i < adapters@.len() && adapters@[i as int].spec_suitable()
            && (forall|j: int| 0 <= j < i ==> !(#[trigger] adapters@[j]).spec_suitable()),
        r matches Err(e) ==> e == VulkanError::NoSuitableAdapter,
        (r is Err) <==> (forall|j: int|
            0 <= j < adapters@.len() ==> !(#[trigger] adapters@[j]).spec_suitable()),
{
    let mut i: usize = 0;
    while i < adapters.len()
        invariant
            forall|j: int| 0 <= j < adapters@.len() ==> (#[trigger] adapters@[j]).wf(),
            i <= adapters@.len(),
            forall|j: int| 0 <= j < i ==> !(#[trigger] adapters@[j]).spec_suitable(),
        decreases adapters@.len() - i,
    {
        if is_device_suitable(&adapters[i]) {
            return Ok(i);
        }
        i = i + 1;
    }
    Err(VulkanError::NoSuitableAdapter)
}

} // verus!
