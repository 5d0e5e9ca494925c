//! Error taxonomy of the rendering core.

use vstd::prelude::*;

verus! {

/// Everything that can go wrong while bringing up or driving the context.
///
/// The creation and negotiation failures are fatal; staleness of the
/// swapchain is reported separately by the frame scheduler and is the one
/// recoverable condition.
#[derive(Clone, Copy, Debug, PartialEq, Eq, Structural)]
pub enum VulkanError {
    /// No enumerated adapter offers both graphics and present capability.
    NoSuitableAdapter,
    /// The driver rejected logical-device creation.
    DeviceCreationError,
    /// The driver rejected instance creation.
    InstanceCreationError,
    /// The driver rejected pipeline creation.
    PipelineCreationError,
    /// A shader binary was malformed or rejected by the driver.
    ShaderModuleCreationError,
    /// The driver rejected buffer creation or memory allocation.
    BufferCreationError,
    /// No memory type satisfies the buffer's requirements.
    MemoryTypeNotFound,
    /// Image acquisition failed for a reason other than staleness.
    AcquireError,
    /// Presentation failed for a reason other than staleness.
    PresentError,
    /// Waiting on a frame fence failed.
    FenceWaitError,
    /// Diagnostics were requested but the validation layer is absent.
    ValidationLayerUnavailable,
}

impl VulkanError {
    /// A short description of the failing stage, for fatal-error reports.
    pub fn message(&self) -> (r: &'static str)
        ensures
            *self is NoSuitableAdapter ==> r@ == "no suitable adapter found"@,
            *self is DeviceCreationError ==> r@ == "failed to create logical device"@,
            *self is InstanceCreationError ==> r@ == "failed to create instance"@,
            *self is PipelineCreationError ==> r@ == "failed to create graphics pipeline"@,
            *self is ShaderModuleCreationError ==> r@ == "failed to create shader module"@,
            *self is BufferCreationError ==> r@ == "failed to create vertex buffer"@,
            *self is MemoryTypeNotFound ==> r@ == "failed to find suitable memory type"@,
            *self is AcquireError ==> r@ == "failed to acquire next image"@,
            *self is PresentError ==> r@ == "failed to present queue"@,
            *self is FenceWaitError ==> r@ == "failed to wait for fence"@,
            *self is ValidationLayerUnavailable ==> r@
                == "validation layers requested, but not available"@,
    {
        match self {
            VulkanError::NoSuitableAdapter => "no suitable adapter found",
            VulkanError::DeviceCreationError => "failed to create logical device",
            VulkanError::InstanceCreationError => "failed to create instance",
            VulkanError::PipelineCreationError => "failed to create graphics pipeline",
            VulkanError::ShaderModuleCreationError => "failed to create shader module",
            VulkanError::BufferCreationError => "failed to create vertex buffer",
            VulkanError::MemoryTypeNotFound => "failed to find suitable memory type",
            VulkanError::AcquireError => "failed to acquire next image",
            VulkanError::PresentError => "failed to present queue",
            VulkanError::FenceWaitError => "failed to wait for fence",
            VulkanError::ValidationLayerUnavailable => "validation layers requested, but not available",
        }
    }
}

} // verus!
