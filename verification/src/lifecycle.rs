//! Construction and teardown ordering.
//!
//! Bring-up follows a strict object-dependency graph: each stage may only
//! run once everything it builds upon exists. Teardown happens exactly
//! once, after a full device-idle wait, walking the ownership chain in
//! reverse so that no object is freed while another still-alive object
//! references it.

use vstd::prelude::*;

verus! {

/// One stage of context bring-up, in the granularity of the construction
/// routine.
#[derive(Clone, Copy, Debug, PartialEq, Eq, Structural)]
pub enum BuildStage {
    CreateInstance,
    SetupDebugMessenger,
    CreateSurface,
    PickPhysicalDevice,
    CreateLogicalDevice,
    CreateSwapchain,
    CreateImageViews,
    CreateRenderPass,
    CreateGraphicsPipeline,
    CreateFramebuffers,
    CreateCommandPool,
    CreateVertexBuffer,
    CreateCommandBuffers,
    CreateSyncObjects,
}

/// The fixed bring-up sequence.
pub open spec fn spec_build_order() -> Seq<BuildStage> {
    seq![
        BuildStage::CreateInstance,
        BuildStage::SetupDebugMessenger,
        BuildStage::CreateSurface,
        BuildStage::PickPhysicalDevice,
        BuildStage::CreateLogicalDevice,
        BuildStage::CreateSwapchain,
        BuildStage::CreateImageViews,
        BuildStage::CreateRenderPass,
        BuildStage::CreateGraphicsPipeline,
        BuildStage::CreateFramebuffers,
        BuildStage::CreateCommandPool,
        BuildStage::CreateVertexBuffer,
        BuildStage::CreateCommandBuffers,
        BuildStage::CreateSyncObjects,
    ]
}

/// Stage `s` builds directly on the product of stage `t`.
pub open spec fn spec_stage_depends_on(s: BuildStage, t: BuildStage) -> bool {
    match s {
        BuildStage::CreateInstance => false,
        BuildStage::SetupDebugMessenger => t is CreateInstance,
        BuildStage::CreateSurface => t is CreateInstance,
        BuildStage::PickPhysicalDevice => t is CreateInstance || t is CreateSurface,
        BuildStage::CreateLogicalDevice => t is PickPhysicalDevice || t is CreateSurface,
        BuildStage::CreateSwapchain => t is CreateLogicalDevice || t is CreateSurface
            || t is PickPhysicalDevice,
        BuildStage::CreateImageViews => t is CreateSwapchain || t is CreateLogicalDevice,
        BuildStage::CreateRenderPass => t is CreateSwapchain || t is CreateLogicalDevice,
        BuildStage::CreateGraphicsPipeline => t is CreateRenderPass || t is CreateLogicalDevice,
        BuildStage::CreateFramebuffers => t is CreateRenderPass || t is CreateImageViews
            || t is CreateLogicalDevice,
        BuildStage::CreateCommandPool => t is CreateLogicalDevice || t is PickPhysicalDevice,
        BuildStage::CreateVertexBuffer => t is CreateLogicalDevice || t is CreateCommandPool,
        BuildStage::CreateCommandBuffers => t is CreateCommandPool || t is CreateFramebuffers
            || t is CreateGraphicsPipeline || t is CreateVertexBuffer,
        BuildStage::CreateSyncObjects => t is CreateLogicalDevice,
    }
}

/// The bring-up sequence, stage by stage.
pub fn build_order() -> (r: Vec<BuildStage>)
    ensures
        r@ == spec_build_order(),
{
    let mut order: Vec<BuildStage> = Vec::new();
    order.push(BuildStage::CreateInstance);
    order.push(BuildStage::SetupDebugMessenger);
    order.push(BuildStage::CreateSurface);
    order.push(BuildStage::PickPhysicalDevice);
    order.push(BuildStage::CreateLogicalDevice);
    order.push(BuildStage::CreateSwapchain);
    order.push(BuildStage::CreateImageViews);
    order.push(BuildStage::CreateRenderPass);
    order.push(BuildStage::CreateGraphicsPipeline);
    order.push(BuildStage::CreateFramebuffers);
    order.push(BuildStage::CreateCommandPool);
    order.push(BuildStage::CreateVertexBuffer);
    order.push(BuildStage::CreateCommandBuffers);
    order.push(BuildStage::CreateSyncObjects);
    proof {
        assert(order@ =~= spec_build_order());
    }
    order
}

/// Every stage comes after everything it builds upon: the bring-up
/// sequence is a topological order of the object-dependency graph.
pub proof fn lemma_build_order_respects_dependencies()
    ensures
        forall|i: int, j: int|
            0 <= i < spec_build_order().len() && 0 <= j < spec_build_order().len()
                && #[trigger] spec_stage_depends_on(spec_build_order()[i], spec_build_order()[j])
                ==> j < i,
{
}

/// One step of teardown, in destruction order.
#[derive(Clone, Copy, Debug, PartialEq, Eq, Structural)]
pub enum TeardownStep {
    /// Wait for the device to go fully idle; always first, so no
    /// in-flight GPU work references a soon-to-be-freed handle.
    WaitDeviceIdle,
    DestroySyncObjects,
    DestroyVertexBuffer,
    FreeVertexBufferMemory,
    DestroyCommandPool,
    DestroyGraphicsPipeline,
    DestroyPipelineLayout,
    DestroyRenderPass,
    DestroyFramebuffers,
    DestroyImageViews,
    DestroySwapchain,
    DestroyDevice,
    DestroyDebugMessenger,
    DestroySurface,
    DestroyInstance,
}

/// The fixed teardown sequence: the idle wait, then the ownership chain
/// in reverse — sync objects, buffer and memory, pipeline state,
/// framebuffers, image views, swapchain, device, diagnostics, surface,
/// instance. The diagnostics messenger step is present only when
/// diagnostics were enabled.
pub open spec fn spec_teardown_order(validation_enabled: bool) -> Seq<TeardownStep> {
    let head = seq![
        TeardownStep::WaitDeviceIdle,
        TeardownStep::DestroySyncObjects,
        TeardownStep::DestroyVertexBuffer,
        TeardownStep::FreeVertexBufferMemory,
        TeardownStep::DestroyCommandPool,
        TeardownStep::DestroyGraphicsPipeline,
        TeardownStep::DestroyPipelineLayout,
        TeardownStep::DestroyRenderPass,
        TeardownStep::DestroyFramebuffers,
        TeardownStep::DestroyImageViews,
        TeardownStep::DestroySwapchain,
        TeardownStep::DestroyDevice,
    ];
    let tail = if validation_enabled {
        seq![
            TeardownStep::DestroyDebugMessenger,
            TeardownStep::DestroySurface,
            TeardownStep::DestroyInstance,
        ]
    } else {
        seq![TeardownStep::DestroySurface, TeardownStep::DestroyInstance]
    };
    head + tail
}

/// The object freed at step `a` is still referenced by the object freed
/// at step `b`, so `a` must be freed first.
pub open spec fn spec_freed_before(a: TeardownStep, b: TeardownStep) -> bool {
    match a {
        TeardownStep::WaitDeviceIdle => false,
        // Everything the device owns goes before the device.
        TeardownStep::DestroySyncObjects => b is DestroyDevice,
        TeardownStep::DestroyVertexBuffer => b is DestroyDevice || b is FreeVertexBufferMemory,
        TeardownStep::FreeVertexBufferMemory => b is DestroyDevice,
        TeardownStep::DestroyCommandPool => b is DestroyDevice,
        // The pipeline is bound to its layout and render pass.
        TeardownStep::DestroyGraphicsPipeline => b is DestroyDevice || b is DestroyPipelineLayout
            || b is DestroyRenderPass,
        TeardownStep::DestroyPipelineLayout => b is DestroyDevice,
        TeardownStep::DestroyRenderPass => b is DestroyDevice,
        // Each framebuffer is bound to a single image view.
        TeardownStep::DestroyFramebuffers => b is DestroyDevice || b is DestroyImageViews,
        // Image views wrap the swapchain's images.
        TeardownStep::DestroyImageViews => b is DestroyDevice || b is DestroySwapchain,
        TeardownStep::DestroySwapchain => b is DestroyDevice,
        // The device and the instance-owned objects go before the instance.
        TeardownStep::DestroyDevice => b is DestroyInstance,
        TeardownStep::DestroyDebugMessenger => b is DestroyInstance,
        TeardownStep::DestroySurface => b is DestroyInstance,
        TeardownStep::DestroyInstance => false,
    }
}

/// The teardown sequence, step by step.
pub fn teardown_order(validation_enabled: bool) -> (r: Vec<TeardownStep>)
    ensures
        r@ == spec_teardown_order(validation_enabled),
        r@[0] == TeardownStep::WaitDeviceIdle,
{
    let mut order: Vec<TeardownStep> = Vec::new();
    order.push(TeardownStep::WaitDeviceIdle);
    order.push(TeardownStep::DestroySyncObjects);
    order.push(TeardownStep::DestroyVertexBuffer);
    order.push(TeardownStep::FreeVertexBufferMemory);
    order.push(TeardownStep::DestroyCommandPool);
    order.push(TeardownStep::DestroyGraphicsPipeline);
    order.push(TeardownStep::DestroyPipelineLayout);
    order.push(TeardownStep::DestroyRenderPass);
    order.push(TeardownStep::DestroyFramebuffers);
    order.push(TeardownStep::DestroyImageViews);
    order.push(TeardownStep::DestroySwapchain);
    order.push(TeardownStep::DestroyDevice);
    if validation_enabled {
        order.push(TeardownStep::DestroyDebugMessenger);
    }
    order.push(TeardownStep::DestroySurface);
    order.push(TeardownStep::DestroyInstance);
    proof {
        assert(order@ =~= spec_teardown_order(validation_enabled));
    }
    order
}

/// The device-idle wait strictly precedes every destruction, and no step
/// frees an object that a later-freed object still references: the walk
/// is the reverse of the ownership chain.
pub proof fn lemma_teardown_safe(validation_enabled: bool)
    ensures
        spec_teardown_order(validation_enabled)[0] == TeardownStep::WaitDeviceIdle,
        forall|k: int|
            1 <= k < spec_teardown_order(validation_enabled).len()
                ==> !((#[trigger] spec_teardown_order(validation_enabled)[k]) is WaitDeviceIdle),
        forall|i: int, j: int|
            0 <= i < spec_teardown_order(validation_enabled).len() && 0 <= j
                < spec_teardown_order(validation_enabled).len() && #[trigger] spec_freed_before(
                spec_teardown_order(validation_enabled)[i],
                spec_teardown_order(validation_enabled)[j],
            ) ==> i < j,
{
}

} // verus!
