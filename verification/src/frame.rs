//! The two pixel grids of the pipeline: the incoming color frame (three
//! bytes per sample, row-major) and the derived luminance grid (one byte
//! per sample) that quantization reads.

use vstd::prelude::*;
use crate::RenderError;

verus! {

/// One captured color frame: a `width` by `height` grid of RGB samples in
/// row-major order, three bytes per sample.
#[derive(Debug)]
pub struct RgbFrame {
    pub width: u32,
    pub height: u32,
    pub data: Vec<u8>,
}

impl RgbFrame {
    /// A frame is well formed when it is non-degenerate (both dimensions
    /// positive) and its buffer holds exactly three bytes per sample.
    pub open spec fn wf(&self) -> bool {
        &&& self.width >= 1
        &&& self.height >= 1
        &&& self.data@.len() == 3 * self.width * self.height
    }

    /// Builds a frame from raw RGB bytes, rejecting degenerate dimensions
    /// and buffers whose length does not match them.
    pub fn new(width: u32, height: u32, data: Vec<u8>) -> (r: Result<RgbFrame, RenderError>)
        ensures
            (width >= 1 && height >= 1 && data@.len() == 3 * width * height) ==> (r
                matches Ok(frame) && frame.width == width && frame.height == height
                && frame.data@ == data@ && frame.wf()),
            !(width >= 1 && height >= 1 && data@.len() == 3 * width * height) ==> r
                == Err::<RgbFrame, RenderError>(RenderError::InvalidDimension),
    {
        proof {
            assert(3 * (width as int) * (height as int) < 0x1_0000_0000_0000_0000_0000) by (nonlinear_arith)
                requires
                    width < 0x1_0000_0000,
                    height < 0x1_0000_0000,
            ;
        }
        let expected: u128 = 3 * (width as u128) * (height as u128);
        if width >= 1 && height >= 1 && (data.len() as u128) == expected {
            Ok(RgbFrame { width, height, data })
        } else {
            Err(RenderError::InvalidDimension)
        }
    }
}

/// A luminance grid: a `width` by `height` grid of brightness samples in
/// row-major order, one byte per sample, 0 darkest and 255 lightest.
#[derive(Debug)]
pub struct GrayFrame {
    pub width: u32,
    pub height: u32,
    pub pixels: Vec<u8>,
}

impl GrayFrame {
    /// A grid is well formed when its width is positive (rows are never
    /// empty) and its buffer holds exactly one byte per sample.
    pub open spec fn wf(&self) -> bool {
        &&& self.width >= 1
        &&& self.pixels@.len() == self.width * self.height
    }

    /// Builds a luminance grid from raw bytes, rejecting a zero width and
    /// buffers whose length does not match the dimensions.
    pub fn new(width: u32, height: u32, pixels: Vec<u8>) -> (r: Result<GrayFrame, RenderError>)
        ensures
            (width >= 1 && pixels@.len() == width * height) ==> (r matches Ok(frame)
                && frame.width == width && frame.height == height && frame.pixels@ == pixels@
                && frame.wf()),
            !(width >= 1 && pixels@.len() == width * height) ==> r
                == Err::<GrayFrame, RenderError>(RenderError::InvalidDimension),
    {
        proof {
            assert((width as int) * (height as int) < 0x1_0000_0000_0000_0000) by (nonlinear_arith)
                requires
                    width < 0x1_0000_0000,
                    height < 0x1_0000_0000,
            ;
        }
        let expected: u128 = (width as u128) * (height as u128);
        if width >= 1 && (pixels.len() as u128) == expected {
            Ok(GrayFrame { width, height, pixels })
        } else {
            Err(RenderError::InvalidDimension)
        }
    }
}

} // verus!
