use vstd::prelude::*;

verus! {

/// A builder without a window yet.
pub struct MissingWindow;

/// A builder with the window to draw to.
pub struct HasWindow<W>(pub W);

/// Whether the Vulkan validation layers are asked for.
#[derive(Debug, Default, Copy, Clone, PartialEq, Eq, Structural)]
pub enum ValidationStatus {
    Enabled,
    #[default]
    Disabled,
}

/// What a Vulkan context is created from.
pub struct VulkanCreateInfo<W> {
    pub window: W,
    pub validation_status: ValidationStatus,
}

/// Collects what a Vulkan context needs: a window and the validation status.
pub struct VulkanBuilder<W> {
    window: W,
    validation_status: ValidationStatus,
}

impl<W> VulkanBuilder<W> {
    /// The window, or the marker that there is none yet.
    pub closed spec fn window(&self) -> W {
        self.window
    }

    /// The validation status asked for.
    pub closed spec fn validation_status(&self) -> ValidationStatus {
        self.validation_status
    }

    /// The same builder with `validation_status`.
    pub fn with_validation(self, validation_status: ValidationStatus) -> (b: VulkanBuilder<W>)
        ensures
            b.window() == self.window(),
            b.validation_status() == validation_status,
    {
        VulkanBuilder { window: self.window, validation_status }
    }
}

impl VulkanBuilder<MissingWindow> {
    /// A builder without a window, validation disabled.
    pub fn new() -> (b: Self)
        ensures
            b.validation_status() == ValidationStatus::Disabled,
    {
        VulkanBuilder { window: MissingWindow, validation_status: ValidationStatus::Disabled }
    }

    /// The builder with `window` to draw to.
    pub fn with_window<W>(self, window: W) -> (b: VulkanBuilder<HasWindow<W>>)
        ensures
            b.window() == HasWindow(window),
            b.validation_status() == self.validation_status(),
    {
        VulkanBuilder { window: HasWindow(window), validation_status: self.validation_status }
    }
}

impl Default for VulkanBuilder<MissingWindow> {
    fn default() -> (b: Self)
        ensures
            b.validation_status() == ValidationStatus::Disabled,
    {
        Self::new()
    }
}

impl<W> VulkanBuilder<HasWindow<W>> {
    /// What the Vulkan context is to be created from.
    pub fn into_create_info(self) -> (info: VulkanCreateInfo<W>)
        ensures
            HasWindow(info.window) == self.window(),
            info.validation_status == self.validation_status(),
    {
        VulkanCreateInfo { window: self.window.0, validation_status: self.validation_status }
    }
}

} // verus!
