use vstd::prelude::*;

verus! {

/// A pipeline builder without a vertex shader yet.
pub struct VertexShaderMissing;

/// A pipeline builder without a fragment shader yet.
pub struct FragmentShaderMissing;

/// A pipeline builder without a configuration yet.
pub struct ConfigMissing;

} // verus!
