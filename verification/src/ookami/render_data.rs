use vstd::prelude::*;

verus! {

/// What the game loop hands the renderer each frame (nothing yet).
pub struct RenderData {}

impl Default for RenderData {
    fn default() -> (d: RenderData)
        ensures
            d == (RenderData {}),
    {
        RenderData {}
    }
}

impl RenderData {
    /// How the data prints for debugging.
    pub fn debug_string(&self) -> (s: String)
        ensures
            s@ == "RenderData { .. }\n"@,
    {
        String::from_str("RenderData { .. }\n")
    }
}

} // verus!
