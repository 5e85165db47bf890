//! Renders color video frames as ASCII art: each frame is resized to a
//! target character grid, desaturated to per-pixel luminance, and quantized
//! through an ordered brightness ramp into lines of text.

use vstd::prelude::*;

pub mod fps;
pub mod frame;
pub mod math;
pub mod ramp;
pub mod render;
pub mod resize;

verus! {

/// Why a rendering request was rejected.
#[derive(Clone, Copy, Debug, PartialEq, Eq, Structural)]
pub enum RenderError {
    /// A dimension that must be positive (such as the target width) was zero,
    /// or a buffer length did not match its stated dimensions.
    InvalidDimension,
    /// The brightness ramp has fewer than two characters.
    RampTooShort,
    /// The requested output would not fit in this machine's address space.
    OutputTooLarge,
}

} // verus!
