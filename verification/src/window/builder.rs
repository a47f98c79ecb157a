use vstd::prelude::*;
use crate::utils::behavior::{CloseBehavior, ColorMode, Visibility};

verus! {

/// A builder with a title.
#[derive(Debug, Clone, Copy)]
pub struct HasTitle(pub &'static str);

/// A builder without a title yet.
pub struct MissingTitle;

/// A builder with a size.
#[derive(Debug, Clone, Copy, PartialEq, Eq, Structural)]
pub struct HasSize {
    pub width: i32,
    pub height: i32,
}

/// A builder without a size yet.
pub struct MissingSize;

/// What a window is created from.
#[derive(Debug, Clone)]
pub struct WindowCreateInfo<Title, Size> {
    pub title: Title,
    pub size: Size,
    pub color_mode: ColorMode,
    pub visibility: Visibility,
}

/// Collects what a window needs; a window can be built once it has a title and
/// a size.
pub struct WindowBuilder<Title, Size> {
    create_info: WindowCreateInfo<Title, Size>,
}

impl<Title, Size> WindowBuilder<Title, Size> {
    /// What has been collected so far.
    pub closed spec fn info(&self) -> WindowCreateInfo<Title, Size> {
        self.create_info
    }

    /// The same builder with `color_mode`.
    pub fn with_color_mode(self, color_mode: ColorMode) -> (b: Self)
        ensures
            b.info() == (WindowCreateInfo { color_mode, ..self.info() }),
    {
        WindowBuilder {
            create_info: WindowCreateInfo {
                title: self.create_info.title,
                size: self.create_info.size,
                color_mode,
                visibility: self.create_info.visibility,
            },
        }
    }

    /// The same builder: a window's close behavior is not kept.
    pub fn with_close_behavior(self, close_behavior: CloseBehavior) -> (b: Self)
        ensures
            b.info() == self.info(),
    {
        WindowBuilder {
            create_info: WindowCreateInfo {
                title: self.create_info.title,
                size: self.create_info.size,
                color_mode: self.create_info.color_mode,
                visibility: self.create_info.visibility,
            },
        }
    }

    /// The same builder with `visibility`.
    pub fn with_visibility(self, visibility: Visibility) -> (b: Self)
        ensures
            b.info() == (WindowCreateInfo { visibility, ..self.info() }),
    {
        WindowBuilder {
            create_info: WindowCreateInfo {
                title: self.create_info.title,
                size: self.create_info.size,
                color_mode: self.create_info.color_mode,
                visibility,
            },
        }
    }
}

impl WindowBuilder<MissingTitle, MissingSize> {
    /// A builder without title or size, in dark mode, shown.
    pub fn new() -> (b: Self)
        ensures
            b.info().color_mode == ColorMode::Dark,
            b.info().visibility == Visibility::Shown,
    {
        WindowBuilder {
            create_info: WindowCreateInfo {
                title: MissingTitle,
                size: MissingSize,
                color_mode: ColorMode::Dark,
                visibility: Visibility::Shown,
            },
        }
    }
}

impl Default for WindowBuilder<MissingTitle, MissingSize> {
    fn default() -> (b: Self)
        ensures
            b.info().color_mode == ColorMode::Dark,
            b.info().visibility == Visibility::Shown,
    {
        Self::new()
    }
}

impl<Size> WindowBuilder<MissingTitle, Size> {
    /// The builder with `title`.
    pub fn with_title(self, title: &'static str) -> (b: WindowBuilder<HasTitle, Size>)
        ensures
            b.info().title == HasTitle(title),
            b.info().size == self.info().size,
            b.info().color_mode == self.info().color_mode,
            b.info().visibility == self.info().visibility,
    {
        WindowBuilder {
            create_info: WindowCreateInfo {
                title: HasTitle(title),
                size: self.create_info.size,
                color_mode: self.create_info.color_mode,
                visibility: self.create_info.visibility,
            },
        }
    }
}

impl<Title> WindowBuilder<Title, MissingSize> {
    /// The builder with a size of `width` by `height`.
    pub fn with_size(self, width: i32, height: i32) -> (b: WindowBuilder<Title, HasSize>)
        ensures
            b.info().title == self.info().title,
            b.info().size == (HasSize { width, height }),
            b.info().color_mode == self.info().color_mode,
            b.info().visibility == self.info().visibility,
    {
        WindowBuilder {
            create_info: WindowCreateInfo {
                title: self.create_info.title,
                size: HasSize { width, height },
                color_mode: self.create_info.color_mode,
                visibility: self.create_info.visibility,
            },
        }
    }
}

impl WindowBuilder<HasTitle, HasSize> {
    /// What the window is to be created from.
    pub fn into_create_info(self) -> (info: WindowCreateInfo<HasTitle, HasSize>)
        ensures
            info == self.info(),
    {
        self.create_info
    }
}

} // verus!
