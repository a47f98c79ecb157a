use vstd::prelude::*;
use crate::utils::behavior::{CloseBehavior, ColorMode};

verus! {

/// A builder with a title.
pub struct HasTitle(pub &'static str);

/// A builder without a title yet.
pub struct MissingTitle;

/// A builder with a window size.
pub struct HasSize {
    pub width: i32,
    pub height: i32,
}

/// A builder without a window size yet.
pub struct MissingSize;

/// What an application is created from.
pub struct AppCreateInfo<Title, Size> {
    pub title: Title,
    pub size: Size,
    pub color_mode: ColorMode,
    pub close_behavior: CloseBehavior,
}

/// Collects what an application needs; it can run once it has a title and a
/// window size.
pub struct AppBuilder<Title, Size> {
    create_info: AppCreateInfo<Title, Size>,
}

impl<Title, Size> AppBuilder<Title, Size> {
    /// What has been collected so far.
    pub closed spec fn info(&self) -> AppCreateInfo<Title, Size> {
        self.create_info
    }

    /// The same builder with `color_mode`.
    pub fn with_dark_mode(self, color_mode: ColorMode) -> (b: Self)
        ensures
            b.info() == (AppCreateInfo { color_mode, ..self.info() }),
    {
        AppBuilder {
            create_info: AppCreateInfo {
                title: self.create_info.title,
                size: self.create_info.size,
                color_mode,
                close_behavior: self.create_info.close_behavior,
            },
        }
    }

    /// The same builder with `close_behavior`.
    pub fn with_close_behavior(self, close_behavior: CloseBehavior) -> (b: Self)
        ensures
            b.info() == (AppCreateInfo { close_behavior, ..self.info() }),
    {
        AppBuilder {
            create_info: AppCreateInfo {
                title: self.create_info.title,
                size: self.create_info.size,
                color_mode: self.create_info.color_mode,
                close_behavior,
            },
        }
    }
}

impl AppBuilder<MissingTitle, MissingSize> {
    /// A builder without title or size, in dark mode, with the default close
    /// behavior.
    pub fn new() -> (b: Self)
        ensures
            b.info().color_mode == ColorMode::Dark,
            b.info().close_behavior == CloseBehavior::Default,
    {
        AppBuilder {
            create_info: AppCreateInfo {
                title: MissingTitle,
                size: MissingSize,
                color_mode: ColorMode::Dark,
                close_behavior: CloseBehavior::Default,
            },
        }
    }
}

impl Default for AppBuilder<MissingTitle, MissingSize> {
    fn default() -> (b: Self)
        ensures
            b.info().color_mode == ColorMode::Dark,
            b.info().close_behavior == CloseBehavior::Default,
    {
        Self::new()
    }
}

impl<Size> AppBuilder<MissingTitle, Size> {
    /// The builder with `title`.
    pub fn with_title(self, title: &'static str) -> (b: AppBuilder<HasTitle, Size>)
        ensures
            b.info().title == HasTitle(title),
            b.info().size == self.info().size,
            b.info().color_mode == self.info().color_mode,
            b.info().close_behavior == self.info().close_behavior,
    {
        AppBuilder {
            create_info: AppCreateInfo {
                title: HasTitle(title),
                size: self.create_info.size,
                color_mode: self.create_info.color_mode,
                close_behavior: self.create_info.close_behavior,
            },
        }
    }
}

impl<Title> AppBuilder<Title, MissingSize> {
    /// The builder with a window size of `width` by `height`.
    pub fn with_size(self, width: i32, height: i32) -> (b: AppBuilder<Title, HasSize>)
        ensures
            b.info().title == self.info().title,
            b.info().size == (HasSize { width, height }),
            b.info().color_mode == self.info().color_mode,
            b.info().close_behavior == self.info().close_behavior,
    {
        AppBuilder {
            create_info: AppCreateInfo {
                title: self.create_info.title,
                size: HasSize { width, height },
                color_mode: self.create_info.color_mode,
                close_behavior: self.create_info.close_behavior,
            },
        }
    }
}

impl AppBuilder<HasTitle, HasSize> {
    /// What the application is to be created from.
    pub fn into_create_info(self) -> (info: AppCreateInfo<HasTitle, HasSize>)
        ensures
            info == self.info(),
    {
        self.create_info
    }
}

} // verus!
