//! Command recording: the command pool and the fixed per-image command
//! sequence.
//!
//! One command buffer is pre-recorded per swapchain image. The sequence
//! is immutable once recorded; a new swapchain generation invalidates all
//! of them and they are recorded afresh.

use vstd::prelude::*;

verus! {

use crate::adapter::QueueFamilyIndices;
use crate::float_bits::{F32_ONE_BITS, F32_ZERO_BITS};
use crate::swapchain::Extent2D;

/// What the command pool is created with.
#[derive(Clone, Copy, Debug, PartialEq, Eq, Structural)]
pub struct CommandPoolConfig {
    /// Pool serves the graphics family.
    pub queue_family_index: u32,
    /// Individual command buffers may be reset.
    pub allow_reset: bool,
}

/// Builds the command-pool request for the selected graphics family.
pub fn create_command_pool_config(indices: &QueueFamilyIndices) -> (r: CommandPoolConfig)
    requires
        indices.spec_complete(),
    ensures
        indices.graphics_family matches Some(g) ==> r.queue_family_index == g,
        r.allow_reset,
{
    let queue_family_index = match indices.graphics_family {
        Some(g) => g,
        None => 0,  // unreachable: the selection is complete
    };
    CommandPoolConfig { queue_family_index, allow_reset: true }
}

/// The solid clear color: opaque black, as IEEE-754 bit patterns.
#[derive(Clone, Copy, Debug, PartialEq, Eq, Structural)]
pub struct ClearColor {
    pub r_bits: u32,
    pub g_bits: u32,
    pub b_bits: u32,
    pub a_bits: u32,
}

/// One recorded command.
#[derive(Clone, Copy, Debug, PartialEq, Eq, Structural)]
pub enum DrawCommand {
    /// Begin the render pass on this image's framebuffer, clearing to a
    /// solid color over the full extent.
    BeginRenderPass { framebuffer_index: usize, render_area: Extent2D, clear: ClearColor },
    /// Bind the graphics pipeline.
    BindPipeline,
    /// Bind the single vertex buffer.
    BindVertexBuffer { binding: u32, offset: u64 },
    /// The one draw call.
    Draw { vertex_count: u32, instance_count: u32, first_vertex: u32, first_instance: u32 },
    /// End the render pass.
    EndRenderPass,
}

/// The opaque black clear color.
pub open spec fn spec_clear_color() -> ClearColor {
    ClearColor {
        r_bits: F32_ZERO_BITS,
        g_bits: F32_ZERO_BITS,
        b_bits: F32_ZERO_BITS,
        a_bits: F32_ONE_BITS,
    }
}

/// The fixed sequence recorded for image `framebuffer_index`: begin the
/// pass with a solid clear, bind pipeline and vertex buffer, draw the
/// three vertices in one instance, end the pass.
pub open spec fn spec_command_sequence(framebuffer_index: int, extent: Extent2D) -> Seq<
    DrawCommand,
> {
    seq![
        DrawCommand::BeginRenderPass {
            framebuffer_index: framebuffer_index as usize,
            render_area: extent,
            clear: spec_clear_color(),
        },
        DrawCommand::BindPipeline,
        DrawCommand::BindVertexBuffer { binding: 0, offset: 0 },
        DrawCommand::Draw { vertex_count: 3, instance_count: 1, first_vertex: 0, first_instance: 0 },
        DrawCommand::EndRenderPass,
    ]
}

/// One pre-recorded command buffer: its usage flags and its commands.
#[derive(Clone, Debug)]
pub struct CommandRecording {
    /// Recording allows simultaneous use and resubmission.
    pub simultaneous_use: bool,
    pub commands: Vec<DrawCommand>,
}

/// Records the command sequence for one swapchain image.
pub fn record_command_buffer(framebuffer_index: usize, extent: Extent2D) -> (r: CommandRecording)
    ensures
        r.simultaneous_use,
        r.commands@ == spec_command_sequence(framebuffer_index as int, extent),
{
    let mut commands: Vec<DrawCommand> = Vec::new();
    commands.push(
        DrawCommand::BeginRenderPass {
            framebuffer_index,
            render_area: extent,
            clear: ClearColor {
                r_bits: F32_ZERO_BITS,
                g_bits: F32_ZERO_BITS,
                b_bits: F32_ZERO_BITS,
                a_bits: F32_ONE_BITS,
            },
        },
    );
    commands.push(DrawCommand::BindPipeline);
    commands.push(DrawCommand::BindVertexBuffer { binding: 0, offset: 0 });
    commands.push(
        DrawCommand::Draw {
            vertex_count: 3,
            instance_count: 1,
            first_vertex: 0,
            first_instance: 0,
        },
    );
    commands.push(DrawCommand::EndRenderPass);
    proof {
        assert(commands@ =~= spec_command_sequence(framebuffer_index as int, extent));
    }
    CommandRecording { simultaneous_use: true, commands }
}

/// Records one command buffer per swapchain image, in image order.
pub fn record_all_command_buffers(image_count: usize, extent: Extent2D) -> (r: Vec<
    CommandRecording,
>)
    ensures
        r@.len() == image_count,
        forall|i: int|
            0 <= i < image_count ==> (#[trigger] r@[i]).commands@ == spec_command_sequence(
                i,
                extent,
            ) && r@[i].simultaneous_use,
{
    let mut recordings: Vec<CommandRecording> = Vec::new();
    let mut i: usize = 0;
    while i < image_count
        invariant
            i <= image_count,
            recordings@.len() == i,
            forall|j: int|
                0 <= j < i ==> (#[trigger] recordings@[j]).commands@ == spec_command_sequence(
                    j,
                    extent,
                ) && recordings@[j].simultaneous_use,
        decreases image_count - i,
    {
        recordings.push(record_command_buffer(i, extent));
        i = i + 1;
    }
    recordings
}

/// Every recorded sequence issues exactly one draw call, and it draws the
/// three fixed vertices in one instance starting at vertex zero, instance
/// zero — whatever the image and extent, every frame.
pub proof fn lemma_draw_call_is_fixed(framebuffer_index: int, extent: Extent2D)
    ensures
        spec_command_sequence(framebuffer_index, extent)[3] == (DrawCommand::Draw {
            vertex_count: 3,
            instance_count: 1,
            first_vertex: 0,
            first_instance: 0,
        }),
        forall|k: int|
            0 <= k < spec_command_sequence(framebuffer_index, extent).len() && k != 3
                ==> !(#[trigger] spec_command_sequence(framebuffer_index, extent)[k] is Draw),
{
}

} // verus!
