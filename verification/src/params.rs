use vstd::prelude::*;

verus! {

/// Parameters of the mirror plugin. A key missing from the JSON parameters
/// reads as `false`.
#[derive(Clone, Copy, Debug, Default, PartialEq, Eq, Structural)]
pub struct MirrorParams {
    /// Flip left to right.
    pub horizontal: bool,
    /// Flip top to bottom.
    pub vertical: bool,
}

/// Parameters of the grayscale plugin: none today. It is still a struct, so
/// that the plugin rejects parameters it does not know rather than ignoring
/// them.
#[derive(Clone, Copy, Debug, Default, PartialEq, Eq, Structural)]
pub struct GrayscaleParams {}

} // verus!
