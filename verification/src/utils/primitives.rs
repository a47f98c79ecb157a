use vstd::prelude::*;

verus! {

/// A width and a height, in pixels.
#[derive(Debug, Default, Copy, Clone, PartialEq, Eq, Structural, PartialOrd, Ord)]
pub struct Dimensions {
    pub width: i32,
    pub height: i32,
}

} // verus!
