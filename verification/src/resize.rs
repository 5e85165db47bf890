//! The one step of the pipeline done by the `image` library: resizing a
//! color frame to the target character grid and desaturating it to one
//! luminance byte per sample.

use vstd::prelude::*;

verus! {

/// The luminance grid obtained by resizing `data` — an `orig_w` by `orig_h`
/// grid of RGB samples, row-major, three bytes per sample — to `target_w` by
/// `target_h` with nearest-neighbor sampling and then desaturating each
/// sample to one brightness byte. The result depends on the arguments alone;
/// the resampling arithmetic and the luminance weights are the image
/// library's and are not restated here.
pub uninterp spec fn gray_resized(
    data: Seq<u8>,
    orig_w: nat,
    orig_h: nat,
    target_w: nat,
    target_h: nat,
) -> Seq<u8>;

/// Relies on `image`: `RgbImage::from_raw` (accepts a buffer of exactly
/// three bytes per sample), `DynamicImage::resize_exact` with
/// `FilterType::Nearest` (produces exactly the requested dimensions),
/// `grayscale` on an RGB image (one `Luma` byte per sample, same
/// dimensions), and `into_luma8`/`into_raw` (hand that buffer out).
#[verifier::external_body]
pub(crate) fn resize_to_gray(
    data: &Vec<u8>,
    orig_w: u32,
    orig_h: u32,
    target_w: u32,
    target_h: u32,
) -> (r: Vec<u8>)
    requires
        orig_w >= 1,
        orig_h >= 1,
        target_w >= 1,
        target_h >= 1,
        data@.len() == 3 * orig_w * orig_h,
        3 * target_w * target_h <= usize::MAX,
    ensures
        r@ == gray_resized(
            data@,
            orig_w as nat,
            orig_h as nat,
            target_w as nat,
            target_h as nat,
        ),
        r@.len() == target_w * target_h,
{
    let buffer = image::RgbImage::from_raw(orig_w, orig_h, data.clone())
        .expect("buffer length matches the dimensions");
    image::DynamicImage::ImageRgb8(buffer)
        .resize_exact(target_w, target_h, image::imageops::FilterType::Nearest)
        .grayscale()
        .into_luma8()
        .into_raw()
}

} // verus!
