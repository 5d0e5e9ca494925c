//! Swapchain configuration negotiation.
//!
//! Every choice is deterministic in the surface's reported capabilities:
//! the surface format, the present mode, the image count, the extent and
//! the image-sharing mode. The numeric constants carry the raw API values
//! so the unverified shell can hand driver data straight through.

use vstd::prelude::*;

verus! {

/// Raw value of the 8-bit BGRA sRGB image format.
pub const FORMAT_B8G8R8A8_SRGB: u32 = 50;

/// Raw value of the standard non-linear sRGB color space.
pub const COLOR_SPACE_SRGB_NONLINEAR: u32 = 0;

/// Raw value of the low-latency triple-buffered present mode.
pub const PRESENT_MODE_MAILBOX: u32 = 1;

/// Raw value of the universally supported vertical-sync present mode.
pub const PRESENT_MODE_FIFO: u32 = 2;

/// Sentinel width meaning the surface reports no fixed current extent.
pub const EXTENT_UNDEFINED: u32 = 0xffff_ffff;

/// A two-dimensional pixel extent.
#[derive(Clone, Copy, Debug, PartialEq, Eq, Structural)]
pub struct Extent2D {
    pub width: u32,
    pub height: u32,
}

/// One surface format the target surface supports.
#[derive(Clone, Copy, Debug, PartialEq, Eq, Structural)]
pub struct SurfaceFormat {
    pub format: u32,
    pub color_space: u32,
}

/// The capability bounds the surface reports.
#[derive(Clone, Copy, Debug, PartialEq, Eq, Structural)]
pub struct SurfaceCapabilities {
    pub min_image_count: u32,
    /// Zero means the surface declares no upper bound.
    pub max_image_count: u32,
    pub current_extent: Extent2D,
    pub min_image_extent: Extent2D,
    pub max_image_extent: Extent2D,
    pub current_transform: u32,
}

impl SurfaceCapabilities {
    /// Consistency the surface's driver guarantees of its own report.
    pub open spec fn wf(self) -> bool {
        &&& self.min_image_count < u32::MAX
        &&& (self.max_image_count == 0 || self.min_image_count <= self.max_image_count)
        &&& self.min_image_extent.width <= self.max_image_extent.width
        &&& self.min_image_extent.height <= self.max_image_extent.height
    }
}

/// Everything the surface reports that negotiation depends on.
#[derive(Clone, Debug)]
pub struct SurfaceSupport {
    pub capabilities: SurfaceCapabilities,
    pub formats: Vec<SurfaceFormat>,
    pub present_modes: Vec<u32>,
}

impl SurfaceSupport {
    /// A surface always reports at least one format.
    pub open spec fn wf(self) -> bool {
        &&& self.capabilities.wf()
        &&& self.formats@.len() > 0
    }
}

/// How the swapchain images are shared between queue families.
#[derive(Clone, Copy, Debug, PartialEq, Eq, Structural)]
pub enum SharingMode {
    /// One family owns the images outright.
    Exclusive,
    /// Graphics and present families access the images concurrently.
    Concurrent,
}

/// The preferred format: 8-bit BGRA with the standard non-linear color space.
pub open spec fn spec_preferred_format(f: SurfaceFormat) -> bool {
    f.format == FORMAT_B8G8R8A8_SRGB && f.color_space == COLOR_SPACE_SRGB_NONLINEAR
}

/// What the format negotiation must return: the first preferred format in
/// the supported list if one is present, otherwise the first entry.
pub open spec fn spec_chosen_format(formats: Seq<SurfaceFormat>, r: SurfaceFormat) -> bool {
    if exists|i: int| 0 <= i < formats.len() && spec_preferred_format(formats[i]) {
        exists|k: int|
            0 <= k < formats.len() && r == formats[k] && spec_preferred_format(formats[k])
                && (forall|j: int| 0 <= j < k ==> !spec_preferred_format(#[trigger] formats[j]))
    } else {
        r == formats[0]
    }
}

/// What the present-mode negotiation must return: the low-latency mode if
/// supported, else the vertical-sync mode.
pub open spec fn spec_chosen_present_mode(modes: Seq<u32>, r: u32) -> bool {
    if exists|i: int| 0 <= i < modes.len() && modes[i] == PRESENT_MODE_MAILBOX {
        r == PRESENT_MODE_MAILBOX
    } else {
        r == PRESENT_MODE_FIFO
    }
}

/// The negotiated image count: one more than the minimum, clamped to the
/// maximum when the surface declares one.
pub open spec fn spec_image_count(caps: SurfaceCapabilities) -> int {
    if caps.max_image_count > 0 && caps.min_image_count + 1 > caps.max_image_count {
        caps.max_image_count as int
    } else {
        caps.min_image_count + 1
    }
}

/// Clamping into an inclusive range.
pub open spec fn spec_clamp(x: u32, lo: u32, hi: u32) -> u32
    recommends
        lo <= hi,
{
    if x < lo {
        lo
    } else if x > hi {
        hi
    } else {
        x
    }
}

/// What the extent negotiation must return: the surface's current extent
/// unless that is the undefined sentinel, in which case the window size
/// clamped into the surface's extent bounds.
pub open spec fn spec_chosen_extent(
    caps: SurfaceCapabilities,
    window: Extent2D,
    r: Extent2D,
) -> bool {
    if caps.current_extent.width != EXTENT_UNDEFINED {
        r == caps.current_extent
    } else {
        r.width == spec_clamp(window.width, caps.min_image_extent.width, caps.max_image_extent.width)
            && r.height == spec_clamp(
            window.height,
            caps.min_image_extent.height,
            caps.max_image_extent.height,
        )
    }
}

/// Picks the surface format: the preferred BGRA sRGB pairing when the
/// surface offers it, else the first format the surface reports.
pub fn choose_surface_format(formats: &Vec<SurfaceFormat>) -> (r: SurfaceFormat)
    requires
        formats@.len() > 0,
    ensures
        spec_chosen_format(formats@, r),
        exists|i: int| 0 <= i < formats@.len() && r == formats@[i],
{
    let mut i: usize = 0;
    while i < formats.len()
        invariant
            i <= formats@.len(),
            forall|j: int| 0 <= j < i ==> !spec_preferred_format(#[trigger] formats@[j]),
        decreases formats@.len() - i,
    {
        let f = formats[i];
        if f.format == FORMAT_B8G8R8A8_SRGB && f.color_space == COLOR_SPACE_SRGB_NONLINEAR {
            return f;
        }
        i = i + 1;
    }
    formats[0]
}

/// Picks the present mode: low-latency triple buffering when supported,
/// else vertical sync.
pub fn choose_present_mode(modes: &Vec<u32>) -> (r: u32)
    ensures
        spec_chosen_present_mode(modes@, r),
{
    let mut i: usize = 0;
    while i < modes.len()
        invariant
            i <= modes@.len(),
            forall|j: int| 0 <= j < i ==> #[trigger] modes@[j] != PRESENT_MODE_MAILBOX,
        decreases modes@.len() - i,
    {
        if modes[i] == PRESENT_MODE_MAILBOX {
            return PRESENT_MODE_MAILBOX;
        }
        i = i + 1;
    }
    PRESENT_MODE_FIFO
}

/// Computes the image count: one above the minimum, clamped to the
/// declared maximum when there is one.
pub fn compute_image_count(caps: &SurfaceCapabilities) -> (r: u32)
    requires
        caps.wf(),
    ensures
        r == spec_image_count(*caps),
        caps.min_image_count <= r,
        caps.max_image_count > 0 ==> r <= caps.max_image_count,
{
    let desired = caps.min_image_count + 1;
    if caps.max_image_count > 0 && desired > caps.max_image_count {
        caps.max_image_count
    } else {
        desired
    }
}

/// The negotiated image count always stays within the surface's bounds:
/// at least the minimum, and at most the maximum whenever the surface
/// declares a non-zero maximum.
pub proof fn lemma_image_count_in_bounds(caps: SurfaceCapabilities)
    requires
        caps.wf(),
    ensures
        caps.min_image_count <= spec_image_count(caps),
        caps.max_image_count > 0 ==> spec_image_count(caps) <= caps.max_image_count,
{
}

/// The format negotiation is a round trip: when the preferred format is in
/// the surface's supported list it is the one chosen, otherwise the first
/// supported format is chosen.
pub proof fn lemma_format_round_trip(formats: Seq<SurfaceFormat>, r: SurfaceFormat)
    requires
        formats.len() > 0,
        spec_chosen_format(formats, r),
    ensures
        (exists|i: int| 0 <= i < formats.len() && spec_preferred_format(#[trigger] formats[i]))
            ==> spec_preferred_format(r),
        !(exists|i: int| 0 <= i < formats.len() && spec_preferred_format(#[trigger] formats[i]))
            ==> r == formats[0],
{
}

/// Clamps a value into an inclusive range.
fn clamp_u32(x: u32, lo: u32, hi: u32) -> (r: u32)
    requires
        lo <= hi,
    ensures
        r == spec_clamp(x, lo, hi),
{
    if x < lo {
        lo
    } else if x > hi {
        hi
    } else {
        x
    }
}

/// Picks the swapchain extent: the surface's reported extent unless that
/// is undefined, else the window's pixel size clamped into the bounds.
pub fn choose_swap_extent(caps: &SurfaceCapabilities, window: Extent2D) -> (r: Extent2D)
    requires
        caps.wf(),
    ensures
        spec_chosen_extent(*caps, window, r),
{
    if caps.current_extent.width != EXTENT_UNDEFINED {
        caps.current_extent
    } else {
        Extent2D {
            width: clamp_u32(window.width, caps.min_image_extent.width, caps.max_image_extent.width),
            height: clamp_u32(
                window.height,
                caps.min_image_extent.height,
                caps.max_image_extent.height,
            ),
        }
    }
}

/// One image view per swapchain image: a plain two-dimensional color view
/// with identity component swizzles and a single mip level and layer.
#[derive(Clone, Copy, Debug, PartialEq, Eq, Structural)]
pub struct ImageViewConfig {
    /// Index of the swapchain image the view wraps.
    pub image_index: usize,
    pub view_type_2d: bool,
    pub format: u32,
    pub swizzle_identity: bool,
    pub aspect_color: bool,
    pub base_mip_level: u32,
    pub level_count: u32,
    pub base_array_layer: u32,
    pub layer_count: u32,
}

/// Builds one view request per swapchain image, in image order, all with
/// the swapchain's format.
pub fn create_image_view_configs(image_count: usize, format: u32) -> (r: Vec<ImageViewConfig>)
    ensures
        r@.len() == image_count,
        forall|i: int|
            0 <= i < image_count ==> #[trigger] r@[i] == (ImageViewConfig {
                image_index: i as usize,
                view_type_2d: true,
                format,
                swizzle_identity: true,
                aspect_color: true,
                base_mip_level: 0,
                level_count: 1,
                base_array_layer: 0,
                layer_count: 1,
            }),
{
    let mut views: Vec<ImageViewConfig> = Vec::new();
    let mut i: usize = 0;
    while i < image_count
        invariant
            i <= image_count,
            views@.len() == i,
            forall|j: int|
                0 <= j < i ==> #[trigger] views@[j] == (ImageViewConfig {
                    image_index: j as usize,
                    view_type_2d: true,
                    format,
                    swizzle_identity: true,
                    aspect_color: true,
                    base_mip_level: 0,
                    level_count: 1,
                    base_array_layer: 0,
                    layer_count: 1,
                }),
        decreases image_count - i,
    {
        views.push(
            ImageViewConfig {
                image_index: i,
                view_type_2d: true,
                format,
                swizzle_identity: true,
                aspect_color: true,
                base_mip_level: 0,
                level_count: 1,
                base_array_layer: 0,
                layer_count: 1,
            },
        );
        i = i + 1;
    }
    views
}

/// The full negotiated swapchain configuration.
#[derive(Clone, Debug)]
pub struct SwapchainConfig {
    pub image_count: u32,
    pub format: SurfaceFormat,
    pub present_mode: u32,
    pub extent: Extent2D,
    pub sharing_mode: SharingMode,
    /// The families naming the images under concurrent sharing; empty
    /// under exclusive ownership.
    pub queue_family_indices: Vec<u32>,
    pub image_array_layers: u32,
    pub pre_transform: u32,
    pub clipped: bool,
}

/// Negotiates the whole swapchain configuration from the surface's report,
/// the window's pixel size and the two chosen queue families.
pub fn negotiate_swapchain(
    support: &SurfaceSupport,
    window: Extent2D,
    graphics_family: u32,
    present_family: u32,
) -> (r: SwapchainConfig)
    requires
        support.wf(),
    ensures
        r.image_count == spec_image_count(support.capabilities),
        support.capabilities.min_image_count <= r.image_count,
        support.capabilities.max_image_count > 0 ==> r.image_count
            <= support.capabilities.max_image_count,
        spec_chosen_format(support.formats@, r.format),
        spec_chosen_present_mode(support.present_modes@, r.present_mode),
        spec_chosen_extent(support.capabilities, window, r.extent),
        graphics_family != present_family ==> r.sharing_mode == SharingMode::Concurrent
            && r.queue_family_indices@ == seq![graphics_family, present_family],
        graphics_family == present_family ==> r.sharing_mode == SharingMode::Exclusive
            && r.queue_family_indices@ == Seq::<u32>::empty(),
        r.image_array_layers == 1,
        r.pre_transform == support.capabilities.current_transform,
        r.clipped,
{
    let format = choose_surface_format(&support.formats);
    let present_mode = choose_present_mode(&support.present_modes);
    let extent = choose_swap_extent(&support.capabilities, window);
    let image_count = compute_image_count(&support.capabilities);
    let (sharing_mode, queue_family_indices) = if graphics_family != present_family {
        let mut families: Vec<u32> = Vec::new();
        families.push(graphics_family);
        families.push(present_family);
        proof {
            assert(families@ =~= seq![graphics_family, present_family]);
        }
        (SharingMode::Concurrent, families)
    } else {
        let families: Vec<u32> = Vec::new();
        proof {
            assert(families@ =~= Seq::<u32>::empty());
        }
        (SharingMode::Exclusive, families)
    };
    SwapchainConfig {
        image_count,
        format,
        present_mode,
        extent,
        sharing_mode,
        queue_family_indices,
        image_array_layers: 1,
        pre_transform: support.capabilities.current_transform,
        clipped: true,
    }
}

} // verus!
