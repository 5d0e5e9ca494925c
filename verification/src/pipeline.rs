//! Render-pass and pipeline configuration.
//!
//! The rendering recipe is fully static apart from the attachment format
//! and the extent, both taken from the current swapchain generation. The
//! whole recipe is produced as plain data with every field pinned down;
//! the unverified shell translates it field for field into driver
//! structures.

use vstd::prelude::*;

verus! {

use vstd::string::StringExecFns;
use crate::float_bits::{F32_ONE_BITS, F32_ZERO_BITS};
use crate::swapchain::Extent2D;
use crate::vertex::{VertexAttributeDescription, VertexBindingDescription, VertexData};

/// Stage bit: color-attachment output.
pub const PIPELINE_STAGE_COLOR_ATTACHMENT_OUTPUT: u32 = 0x400;

/// Access bit: color-attachment write.
pub const ACCESS_COLOR_ATTACHMENT_WRITE: u32 = 0x100;

/// Write mask naming all four color components.
pub const COLOR_COMPONENTS_RGBA: u32 = 0xf;

/// How an attachment's contents are treated when a pass begins.
#[derive(Clone, Copy, Debug, PartialEq, Eq, Structural)]
pub enum LoadOp {
    Clear,
    DontCare,
}

/// How an attachment's contents are treated when a pass ends.
#[derive(Clone, Copy, Debug, PartialEq, Eq, Structural)]
pub enum StoreOp {
    Store,
    DontCare,
}

/// The image layouts the single color attachment moves through.
#[derive(Clone, Copy, Debug, PartialEq, Eq, Structural)]
pub enum ImageLayout {
    Undefined,
    ColorAttachmentOptimal,
    PresentSrc,
}

/// The single color attachment: cleared on load, kept on store, ending in
/// the presentable layout.
#[derive(Clone, Copy, Debug, PartialEq, Eq, Structural)]
pub struct AttachmentDescription {
    pub format: u32,
    pub sample_count: u32,
    pub load_op: LoadOp,
    pub store_op: StoreOp,
    pub stencil_load_op: LoadOp,
    pub stencil_store_op: StoreOp,
    pub initial_layout: ImageLayout,
    pub final_layout: ImageLayout,
}

/// The stage-ordering dependency guarding color-attachment writes until
/// the prior frame's presentation has released the image.
#[derive(Clone, Copy, Debug, PartialEq, Eq, Structural)]
pub struct SubpassDependency {
    /// The source is the implicit external subpass.
    pub src_subpass_external: bool,
    pub dst_subpass: u32,
    pub src_stage_mask: u32,
    pub dst_stage_mask: u32,
    pub src_access_mask: u32,
    pub dst_access_mask: u32,
}

/// One render pass: a single color attachment, a single subpass reading
/// it as attachment zero, and one dependency.
#[derive(Clone, Copy, Debug, PartialEq, Eq, Structural)]
pub struct RenderPassConfig {
    pub color_attachment: AttachmentDescription,
    /// The subpass's one color-attachment reference.
    pub attachment_ref_index: u32,
    pub attachment_ref_layout: ImageLayout,
    pub dependency: SubpassDependency,
}

/// Builds the render pass for the given swapchain image format.
pub fn create_render_pass_config(format: u32) -> (r: RenderPassConfig)
    ensures
        r.color_attachment == (AttachmentDescription {
            format,
            sample_count: 1,
            load_op: LoadOp::Clear,
            store_op: StoreOp::Store,
            stencil_load_op: LoadOp::DontCare,
            stencil_store_op: StoreOp::DontCare,
            initial_layout: ImageLayout::Undefined,
            final_layout: ImageLayout::PresentSrc,
        }),
        r.attachment_ref_index == 0,
        r.attachment_ref_layout == ImageLayout::ColorAttachmentOptimal,
        r.dependency == (SubpassDependency {
            src_subpass_external: true,
            dst_subpass: 0,
            src_stage_mask: PIPELINE_STAGE_COLOR_ATTACHMENT_OUTPUT,
            dst_stage_mask: PIPELINE_STAGE_COLOR_ATTACHMENT_OUTPUT,
            src_access_mask: 0,
            dst_access_mask: ACCESS_COLOR_ATTACHMENT_WRITE,
        }),
{
    RenderPassConfig {
        color_attachment: AttachmentDescription {
            format,
            sample_count: 1,
            load_op: LoadOp::Clear,
            store_op: StoreOp::Store,
            stencil_load_op: LoadOp::DontCare,
            stencil_store_op: StoreOp::DontCare,
            initial_layout: ImageLayout::Undefined,
            final_layout: ImageLayout::PresentSrc,
        },
        attachment_ref_index: 0,
        attachment_ref_layout: ImageLayout::ColorAttachmentOptimal,
        dependency: SubpassDependency {
            src_subpass_external: true,
            dst_subpass: 0,
            src_stage_mask: PIPELINE_STAGE_COLOR_ATTACHMENT_OUTPUT,
            dst_stage_mask: PIPELINE_STAGE_COLOR_ATTACHMENT_OUTPUT,
            src_access_mask: 0,
            dst_access_mask: ACCESS_COLOR_ATTACHMENT_WRITE,
        },
    }
}

/// A viewport sized to the swapchain extent; the fractional fields carry
/// IEEE-754 bit patterns.
#[derive(Clone, Copy, Debug, PartialEq, Eq, Structural)]
pub struct Viewport {
    pub x_bits: u32,
    pub y_bits: u32,
    /// Width in whole pixels; the shell converts when filling the
    /// driver's fractional field.
    pub width: u32,
    pub height: u32,
    pub min_depth_bits: u32,
    pub max_depth_bits: u32,
}

/// The fixed-function and programmable pipeline state.
#[derive(Clone, Debug)]
pub struct PipelineConfig {
    pub vertex_entry_point: String,
    pub fragment_entry_point: String,
    pub binding: VertexBindingDescription,
    pub attributes: Vec<VertexAttributeDescription>,
    pub topology_triangle_list: bool,
    pub primitive_restart: bool,
    pub viewport: Viewport,
    pub scissor_offset_x: i32,
    pub scissor_offset_y: i32,
    pub scissor_extent: Extent2D,
    pub depth_clamp: bool,
    pub rasterizer_discard: bool,
    pub polygon_mode_fill: bool,
    pub line_width_bits: u32,
    pub cull_back_faces: bool,
    pub front_face_counter_clockwise: bool,
    pub depth_bias: bool,
    pub sample_count: u32,
    pub sample_shading: bool,
    pub blend_enable: bool,
    pub logic_op_enable: bool,
    pub color_write_mask: u32,
    pub subpass: u32,
}

/// Builds the pipeline state for the given swapchain extent: the vertex
/// layout of the fixed geometry, triangle-list topology, a full-extent
/// viewport and scissor, back-face culling with counter-clockwise front
/// face, no blending and a single sample.
pub fn create_pipeline_config(extent: Extent2D) -> (r: PipelineConfig)
    ensures
        r.vertex_entry_point@ == "main"@,
        r.fragment_entry_point@ == "main"@,
        r.binding == (VertexBindingDescription {
            binding: 0,
            stride: crate::vertex::VERTEX_STRIDE,
            input_rate_per_vertex: true,
        }),
        r.attributes@.len() == 2,
        r.attributes@[0] == (VertexAttributeDescription {
            binding: 0,
            location: 0,
            format: crate::vertex::FORMAT_R32G32_SFLOAT,
            offset: crate::vertex::POSITION_OFFSET,
        }),
        r.attributes@[1] == (VertexAttributeDescription {
            binding: 0,
            location: 1,
            format: crate::vertex::FORMAT_R32G32B32_SFLOAT,
            offset: crate::vertex::COLOR_OFFSET,
        }),
        r.topology_triangle_list,
        !r.primitive_restart,
        r.viewport == (Viewport {
            x_bits: F32_ZERO_BITS,
            y_bits: F32_ZERO_BITS,
            width: extent.width,
            height: extent.height,
            min_depth_bits: F32_ZERO_BITS,
            max_depth_bits: F32_ONE_BITS,
        }),
        r.scissor_offset_x == 0,
        r.scissor_offset_y == 0,
        r.scissor_extent == extent,
        !r.depth_clamp,
        !r.rasterizer_discard,
        r.polygon_mode_fill,
        r.line_width_bits == F32_ONE_BITS,
        r.cull_back_faces,
        r.front_face_counter_clockwise,
        !r.depth_bias,
        r.sample_count == 1,
        !r.sample_shading,
        !r.blend_enable,
        !r.logic_op_enable,
        r.color_write_mask == COLOR_COMPONENTS_RGBA,
        r.subpass == 0,
{
    PipelineConfig {
        vertex_entry_point: String::from_str("main"),
        fragment_entry_point: String::from_str("main"),
        binding: VertexData::get_binding_description(),
        attributes: VertexData::get_attribute_descriptions(),
        topology_triangle_list: true,
        primitive_restart: false,
        viewport: Viewport {
            x_bits: F32_ZERO_BITS,
            y_bits: F32_ZERO_BITS,
            width: extent.width,
            height: extent.height,
            min_depth_bits: F32_ZERO_BITS,
            max_depth_bits: F32_ONE_BITS,
        },
        scissor_offset_x: 0,
        scissor_offset_y: 0,
        scissor_extent: extent,
        depth_clamp: false,
        rasterizer_discard: false,
        polygon_mode_fill: true,
        line_width_bits: F32_ONE_BITS,
        cull_back_faces: true,
        front_face_counter_clockwise: true,
        depth_bias: false,
        sample_count: 1,
        sample_shading: false,
        blend_enable: false,
        logic_op_enable: false,
        color_write_mask: COLOR_COMPONENTS_RGBA,
        subpass: 0,
    }
}

/// One framebuffer per swapchain image view, sized to the extent, one
/// layer, bound to the shared render pass.
#[derive(Clone, Copy, Debug, PartialEq, Eq, Structural)]
pub struct FramebufferConfig {
    /// Index of the swapchain image view the framebuffer binds.
    pub image_view_index: usize,
    pub width: u32,
    pub height: u32,
    pub layers: u32,
}

/// Builds one framebuffer request per swapchain image view.
pub fn create_framebuffer_configs(image_view_count: usize, extent: Extent2D) -> (r: Vec<
    FramebufferConfig,
>)
    ensures
        r@.len() == image_view_count,
        forall|i: int|
            0 <= i < image_view_count ==> #[trigger] r@[i] == (FramebufferConfig {
                image_view_index: i as usize,
                width: extent.width,
                height: extent.height,
                layers: 1,
            }),
{
    let mut configs: Vec<FramebufferConfig> = Vec::new();
    let mut i: usize = 0;
    while i < image_view_count
        invariant
            i <= image_view_count,
            configs@.len() == i,
            forall|j: int|
                0 <= j < i ==> #[trigger] configs@[j] == (FramebufferConfig {
                    image_view_index: j as usize,
                    width: extent.width,
                    height: extent.height,
                    layers: 1,
                }),
        decreases image_view_count - i,
    {
        configs.push(
            FramebufferConfig {
                image_view_index: i,
                width: extent.width,
                height: extent.height,
                layers: 1,
            },
        );
        i = i + 1;
    }
    configs
}

} // verus!
