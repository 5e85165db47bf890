//! The frame renderer: turns a luminance grid into lines of ramp glyphs,
//! and a color frame into the full ASCII block — target height from the
//! aspect ratio, nearest-neighbor resize, desaturation, quantization.

use vstd::prelude::*;
use crate::RenderError;
use crate::frame::GrayFrame;
use crate::frame::RgbFrame;
use crate::math::round_div;
use crate::ramp::Ramp;
use crate::ramp::lemma_index_in_range;
use crate::ramp::luminance_index;
use crate::ramp::ramp_index;
use crate::resize::gray_resized;
use crate::resize::resize_to_gray;
use vstd::arithmetic::div_mod::lemma_fundamental_div_mod_converse;

verus! {

/// Relies on `String::push`: appends the character to the end of the string.
pub assume_specification[ String::push ](s: &mut String, ch: char)
    ensures
        final(s)@ == old(s)@.push(ch),
;

/// The character at position `i` of the rendered block for the luminance
/// grid `lums` with row length `width`: every `width + 1`-th position is a
/// line break, and each other position carries the ramp glyph selected by
/// the luminance sample at the same row and column.
pub open spec fn art_char(
    lums: Seq<u8>,
    width: int,
    ramp: Seq<char>,
    invert: bool,
    i: int,
) -> char {
    if i % (width + 1) == width {
        '\n'
    } else {
        ramp[ramp_index(
            lums[(i / (width + 1)) * width + i % (width + 1)],
            invert,
            ramp.len() as int,
        )]
    }
}

/// The rendered block for a luminance grid of row length `width`: one line
/// per row, each of `width` ramp glyphs followed by a line break.
pub open spec fn ascii_art(lums: Seq<u8>, width: int, ramp: Seq<char>, invert: bool) -> Seq<
    char,
>
    recommends
        width >= 1,
{
    Seq::new(
        ((lums.len() / (width as nat)) * ((width + 1) as nat)) as nat,
        |i: int| art_char(lums, width, ramp, invert, i),
    )
}

/// Renders a luminance grid through the ramp: exactly the block that
/// `ascii_art` states, row by row, one glyph per sample, a line break after
/// each row.
pub fn render_frame(frame: &GrayFrame, ramp: &Ramp, invert: bool) -> (s: String)
    requires
        frame.wf(),
        ramp.wf(),
        (frame.width + 1) * frame.height <= usize::MAX,
    ensures
        s@ == ascii_art(frame.pixels@, frame.width as int, ramp.chars@, invert),
        s@.len() == frame.height * (frame.width + 1),
{
    let w: usize = frame.width as usize;
    let h: usize = frame.height as usize;
    let npix: usize = frame.pixels.len();
    let mut s = String::new();
    let mut row: usize = 0;
    while row < h
        invariant
            row <= h,
            w == frame.width as usize,
            h == frame.height as usize,
            npix == frame.pixels@.len(),
            frame.wf(),
            ramp.wf(),
            s@.len() == row * (w + 1),
            forall|i: int|
                0 <= i < s@.len() ==> s@[i] == art_char(
                    frame.pixels@,
                    w as int,
                    ramp.chars@,
                    invert,
                    i,
                ),
        decreases h - row,
    {
        let mut col: usize = 0;
        proof {
            assert(row * (w + 1) + w < h * (w + 1)) by (nonlinear_arith)
                requires
                    row < h,
                    w >= 1,
            ;
        }
        while col < w
            invariant
                col <= w,
                row < h,
                w == frame.width as usize,
                h == frame.height as usize,
                npix == frame.pixels@.len(),
                frame.wf(),
                ramp.wf(),
                row * (w + 1) + w < h * (w + 1),
                s@.len() == row * (w + 1) + col,
                forall|i: int|
                    0 <= i < s@.len() ==> s@[i] == art_char(
                        frame.pixels@,
                        w as int,
                        ramp.chars@,
                        invert,
                        i,
                    ),
            decreases w - col,
        {
            proof {
                assert(row * w + col < h * w) by (nonlinear_arith)
                    requires
                        row < h,
                        col < w,
                ;
                assert(h * w == frame.width * frame.height) by (nonlinear_arith)
                    requires
                        w == frame.width,
                        h == frame.height,
                ;
            }
            let pi: usize = row * w + col;
            let lum: u8 = frame.pixels[pi];
            let idx: usize = luminance_index(lum, invert, ramp.chars.len());
            let ch: char = ramp.chars[idx];
            let ghost old_s = s@;
            s.push(ch);
            proof {
                let wi = w as int;
                let p = row * (wi + 1) + col;
                lemma_fundamental_div_mod_converse(p, wi + 1, row as int, col as int);
                assert(art_char(frame.pixels@, wi, ramp.chars@, invert, p) == ch);
                assert forall|i: int| 0 <= i < s@.len() implies s@[i] == art_char(
                    frame.pixels@,
                    wi,
                    ramp.chars@,
                    invert,
                    i,
                ) by {
                    if i < old_s.len() {
                        assert(s@[i] == old_s[i]);
                    }
                }
            }
            col = col + 1;
        }
        let ghost old_s = s@;
        s.push('\n');
        proof {
            let wi = w as int;
            let p = row * (wi + 1) + wi;
            lemma_fundamental_div_mod_converse(p, wi + 1, row as int, wi);
            assert(art_char(frame.pixels@, wi, ramp.chars@, invert, p) == '\n');
            assert forall|i: int| 0 <= i < s@.len() implies s@[i] == art_char(
                frame.pixels@,
                wi,
                ramp.chars@,
                invert,
                i,
            ) by {
                if i < old_s.len() {
                    assert(s@[i] == old_s[i]);
                }
            }
            assert((row + 1) * (wi + 1) == row * (wi + 1) + (wi + 1)) by (nonlinear_arith);
        }
        row = row + 1;
    }
    proof {
        let wi = w as int;
        let hi = h as int;
        assert(frame.pixels@.len() == wi * hi) by (nonlinear_arith)
            requires
                frame.pixels@.len() == frame.width * frame.height,
                wi == frame.width,
                hi == frame.height,
        ;
        lemma_fundamental_div_mod_converse(wi * hi, wi, hi, 0);
        assert(s@ =~= ascii_art(frame.pixels@, wi, ramp.chars@, invert));
        assert(hi * (wi + 1) == frame.height * (frame.width + 1)) by (nonlinear_arith)
            requires
                wi == frame.width,
                hi == frame.height,
        ;
    }
    s
}

/// The output height for a target width: the mathematical
/// `round(target_width * (orig_h / orig_w) * 0.55)`, the fixed factor
/// correcting for monospaced glyphs being taller than wide.
pub open spec fn height_for(target_width: int, orig_w: int, orig_h: int) -> int
    recommends
        orig_w >= 1,
{
    round_div(target_width * orig_h * 55, orig_w * 100)
}

/// Computes the output height for a target width and source dimensions,
/// exactly as `height_for` states; rejects a zero target width (the aspect
/// computation would divide by zero) and a height beyond `u32`.
pub fn compute_target_height(target_width: u32, orig_w: u32, orig_h: u32) -> (r: Result<
    u32,
    RenderError,
>)
    requires
        orig_w >= 1,
        orig_h >= 1,
    ensures
        target_width == 0 ==> r == Err::<u32, RenderError>(RenderError::InvalidDimension),
        target_width >= 1 && height_for(target_width as int, orig_w as int, orig_h as int)
            <= u32::MAX ==> (r matches Ok(hgt) && hgt == height_for(
            target_width as int,
            orig_w as int,
            orig_h as int,
        )),
        target_width >= 1 && height_for(target_width as int, orig_w as int, orig_h as int)
            > u32::MAX ==> r == Err::<u32, RenderError>(RenderError::OutputTooLarge),
{
    if target_width == 0 {
        return Err(RenderError::InvalidDimension);
    }
    proof {
        assert((target_width as int) * (orig_h as int) < 0x1_0000_0000_0000_0000) by (
        nonlinear_arith)
            requires
                target_width < 0x1_0000_0000,
                orig_h < 0x1_0000_0000,
        ;
    }
    let n: u128 = (target_width as u128) * (orig_h as u128) * 55;
    let d: u128 = (orig_w as u128) * 100;
    let q: u128 = (2 * n + d) / (2 * d);
    if q > (u32::MAX as u128) {
        Err(RenderError::OutputTooLarge)
    } else {
        Ok(q as u32)
    }
}

/// Renders one color frame as an ASCII block: the output height follows
/// from the target width and the frame's aspect ratio, the frame is resized
/// to that grid with nearest-neighbor sampling and desaturated, and each
/// luminance sample selects one ramp glyph; every row ends in a line break.
pub fn convert_image_to_ascii(
    frame: &RgbFrame,
    target_width: u32,
    invert: bool,
    ramp: &Ramp,
) -> (r: Result<String, RenderError>)
    requires
        frame.wf(),
        ramp.wf(),
    ensures
        target_width == 0 ==> r == Err::<String, RenderError>(RenderError::InvalidDimension),
        target_width >= 1 ==> {
            let th = height_for(target_width as int, frame.width as int, frame.height as int);
            &&& th > u32::MAX ==> r == Err::<String, RenderError>(RenderError::OutputTooLarge)
            &&& th == 0 ==> (r matches Ok(s) && s@ == Seq::<char>::empty())
            &&& (1 <= th <= u32::MAX && 3 * target_width * th > usize::MAX) ==> r == Err::<
                String,
                RenderError,
            >(RenderError::OutputTooLarge)
            &&& (1 <= th <= u32::MAX && 3 * target_width * th <= usize::MAX) ==> (r matches Ok(s)
                && s@ == ascii_art(
                gray_resized(
                    frame.data@,
                    frame.width as nat,
                    frame.height as nat,
                    target_width as nat,
                    th as nat,
                ),
                target_width as int,
                ramp.chars@,
                invert,
            ) && s@.len() == th * (target_width + 1))
        },
{
    let th: u32 = match compute_target_height(target_width, frame.width, frame.height) {
        Ok(t) => t,
        Err(e) => {
            return Err(e);
        },
    };
    if th == 0 {
        return Ok(String::new());
    }
    proof {
        assert(3 * (target_width as int) * (th as int) < 0x1_0000_0000_0000_0000_0000) by (
        nonlinear_arith)
            requires
                target_width < 0x1_0000_0000,
                th < 0x1_0000_0000,
        ;
    }
    let need: u128 = 3 * (target_width as u128) * (th as u128);
    if need > (usize::MAX as u128) {
        return Err(RenderError::OutputTooLarge);
    }
    let gray: Vec<u8> = resize_to_gray(&frame.data, frame.width, frame.height, target_width, th);
    let grid = GrayFrame { width: target_width, height: th, pixels: gray };
    proof {
        assert((target_width + 1) * (th as int) <= 3 * (target_width as int) * (th as int)) by (
        nonlinear_arith)
            requires
                target_width >= 1,
                th >= 1,
        ;
    }
    Ok(render_frame(&grid, ramp, invert))
}

/// Law: the rendered block is lines — one per grid row, each of exactly
/// `width` glyphs followed by one line break, so a line break stands at
/// every `width + 1`-th position and nowhere else. The "nowhere else"
/// direction asks that the ramp itself contain no line-break glyph.
pub proof fn lemma_line_structure(lums: Seq<u8>, width: int, ramp: Seq<char>, invert: bool)
    requires
        width >= 1,
        ramp.len() >= 2,
        forall|k: int| 0 <= k < ramp.len() ==> ramp[k] != '\n',
    ensures
        ascii_art(lums, width, ramp, invert).len() == (lums.len() / (width as nat)) * (width + 1),
        forall|i: int|
            0 <= i < ascii_art(lums, width, ramp, invert).len() ==> (ascii_art(
                lums,
                width,
                ramp,
                invert,
            )[i] == '\n' <==> i % (width + 1) == width),
{
    let art = ascii_art(lums, width, ramp, invert);
    assert forall|i: int| 0 <= i < art.len() implies (art[i] == '\n' <==> i % (width + 1)
        == width) by {
        if i % (width + 1) != width {
            lemma_index_in_range(
                lums[(i / (width + 1)) * width + i % (width + 1)],
                invert,
                ramp.len() as int,
            );
        }
    }
}

/// Law: rendering is deterministic. The block is a function of the frame
/// bytes, the dimensions, the ramp and the inversion flag alone, so two
/// conversions of the same frame with the same parameters — each pinned by
/// the contract of `convert_image_to_ascii` to the value below — yield
/// identical output.
pub proof fn lemma_convert_deterministic(
    s1: Seq<char>,
    s2: Seq<char>,
    data: Seq<u8>,
    orig_w: nat,
    orig_h: nat,
    target_w: nat,
    target_h: nat,
    ramp: Seq<char>,
    invert: bool,
)
    requires
        s1 == ascii_art(
            gray_resized(data, orig_w, orig_h, target_w, target_h),
            target_w as int,
            ramp,
            invert,
        ),
        s2 == ascii_art(
            gray_resized(data, orig_w, orig_h, target_w, target_h),
            target_w as int,
            ramp,
            invert,
        ),
    ensures
        s1 == s2,
{
}

} // verus!

