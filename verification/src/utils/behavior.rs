use vstd::prelude::*;

verus! {

/// Whether a window is drawn in the light or the dark theme.
#[derive(PartialEq, Eq, Structural, Clone, Copy, Debug, Hash)]
pub enum ColorMode {
    Light,
    Dark,
}

/// Whether a window is shown on screen.
#[derive(PartialEq, Eq, Structural, Clone, Copy, Debug, Hash)]
pub enum Visibility {
    Shown,
    Hidden,
}

/// What happens when the user asks a window to close.
#[derive(PartialEq, Eq, Structural, Clone, Copy, Debug, Hash)]
pub enum CloseBehavior {
    Default,
    Custom,
}

} // verus!
