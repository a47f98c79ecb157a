use vstd::prelude::*;

verus! {

/// A builder without a window yet.
pub struct MissingWindow;

/// A builder with the window to draw to.
pub struct HasWindow<W>(pub W);

/// Whether the Vulkan validation layers are asked for.
#[derive(Debug, Default, Copy, Clone, PartialEq, Eq, Structural)]
pub enum ValidationStatus {
    Enabled,
    #[default]
    Disabled,
}

/// What a device is created from.
pub struct VulkanCreateInfo<W> {
    pub window: W,
    pub validation_status: ValidationStatus,
}

/// Collects what a device needs: a window and the validation status.
pub struct DeviceBuilder<W> {
    window: W,
    validation_status: ValidationStatus,
}

impl<W> DeviceBuilder<W> {
    /// The window, or the marker that there is none yet.
    pub closed spec fn window(&self) -> W {
        self.window
    }

    /// The validation status asked for.
    pub closed spec fn validation_status(&self) -> ValidationStatus {
        self.validation_status
    }

    /// The same builder with `validation_status`.
    pub fn with_validation(self, validation_status: ValidationStatus) -> (b: DeviceBuilder<W>)
        ensures
            b.window() == self.window(),
            b.validation_status() == validation_status,
    {
        DeviceBuilder { window: self.window, validation_status }
    }
}

impl DeviceBuilder<MissingWindow> {
    /// A builder without a window, validation disabled.
    pub fn new() -> (b: Self)
        ensures
            b.validation_status() == ValidationStatus::Disabled,
    {
        DeviceBuilder { window: MissingWindow, validation_status: ValidationStatus::Disabled }
    }

    /// The builder with `window` to draw to.
    pub fn with_window<W>(self, window: W) -> (b: DeviceBuilder<HasWindow<W>>)
        ensures
            b.window() == HasWindow(window),
            b.validation_status() == self.validation_status(),
    {
        DeviceBuilder { window: HasWindow(window), validation_status: self.validation_status }
    }
}

impl Default for DeviceBuilder<MissingWindow> {
    fn default() -> (b: Self)
        ensures
            b.validation_status() == ValidationStatus::Disabled,
    {
        Self::new()
    }
}

impl<W> DeviceBuilder<HasWindow<W>> {
    /// What the device is to be created from.
    pub fn into_create_info(self) -> (info: VulkanCreateInfo<W>)
        ensures
            HasWindow(info.window) == self.window(),
            info.validation_status == self.validation_status(),
    {
        VulkanCreateInfo { window: self.window.0, validation_status: self.validation_status }
    }
}

} // verus!
