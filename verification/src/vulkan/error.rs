use vstd::prelude::*;

verus! {

/// A device feature the renderer needs.
#[derive(Debug, Copy, Clone, PartialEq, Eq, Structural)]
pub enum DeviceFeature {
    SamplerAnisotropy,
    BufferDeviceAddress,
    DescriptorIndexing,
    DynamicRendering,
    Synchronization2,
}

/// What the device or driver lacks.
#[derive(Debug)]
pub enum Unsupported {
    /// Validation layers that the driver does not offer.
    MissingLayers(Vec<String>),
    /// Instance extensions that the driver does not offer.
    MissingInstanceExtensions(Vec<String>),
    /// Device extensions that the device does not offer.
    MissingDeviceExtensions(Vec<String>),
    /// The first needed feature that the device lacks.
    MissingFeature(DeviceFeature),
    /// No queue family can do graphics, or none can present.
    NoQueueFamilies,
    /// No device is suitable.
    NoSuitableDevice,
}

/// Why a Vulkan operation failed.
#[derive(Debug)]
pub enum VulkanError {
    /// A Vulkan call failed with this `VkResult` code.
    Vulkan(i32),
    /// The device or driver lacks something the renderer needs.
    Unsupported(Unsupported),
    /// A shader could not be read or compiled.
    Shader(String),
    /// Anything else, described.
    Other(String),
}

} // verus!
