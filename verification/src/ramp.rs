//! The brightness ramp: an ordered alphabet of glyphs, darkest-appearing to
//! lightest-appearing (or the reverse, under inversion), and the quantization
//! of a luminance sample to a position in it.

use vstd::prelude::*;
use crate::RenderError;
use crate::math::round_div;
use crate::math::lemma_round_div_bounds;
use crate::math::lemma_round_div_exact;
use vstd::arithmetic::mul::lemma_mul_inequality;
use vstd::arithmetic::mul::lemma_mul_nonnegative;

verus! {

/// The ramp index a luminance sample maps to: the sample is normalized to
/// `[0, 1]` (dividing by 255), flipped if `invert` is set, scaled by
/// `ramp_len - 1`, and rounded to the nearest integer, ties up.
pub open spec fn ramp_index(lum: u8, invert: bool, ramp_len: int) -> int {
    let level: int = if invert {
        255 - lum
    } else {
        lum as int
    };
    round_div(level * (ramp_len - 1), 255)
}

/// For every luminance sample and either inversion setting, the computed
/// index lies within the ramp: no sample can select a glyph out of bounds.
pub proof fn lemma_index_in_range(lum: u8, invert: bool, ramp_len: int)
    requires
        ramp_len >= 2,
    ensures
        0 <= ramp_index(lum, invert, ramp_len) < ramp_len,
{
    let level: int = if invert {
        255 - lum
    } else {
        lum as int
    };
    lemma_mul_nonnegative(level, ramp_len - 1);
    lemma_mul_inequality(level, 255, ramp_len - 1);
    lemma_round_div_bounds(level * (ramp_len - 1), 255, ramp_len - 1);
}

/// The extremes of the mapping: without inversion, luminance 0 selects the
/// first glyph of the ramp and luminance 255 the last; with inversion the
/// two trade places.
pub proof fn lemma_index_extremes(ramp_len: int)
    requires
        ramp_len >= 2,
    ensures
        ramp_index(0, false, ramp_len) == 0,
        ramp_index(255, false, ramp_len) == ramp_len - 1,
        ramp_index(0, true, ramp_len) == ramp_len - 1,
        ramp_index(255, true, ramp_len) == 0,
{
    lemma_round_div_exact(0, 255);
    lemma_round_div_exact(ramp_len - 1, 255);
    assert(255 * (ramp_len - 1) == (ramp_len - 1) * 255) by (nonlinear_arith);
}

/// An ordered alphabet of glyphs standing for brightness levels. Immutable
/// once constructed and shared read-only across all frame conversions.
#[derive(Debug)]
pub struct Ramp {
    pub chars: Vec<char>,
}

impl Ramp {
    /// A ramp is well formed when it offers at least two brightness levels.
    pub open spec fn wf(&self) -> bool {
        self.chars@.len() >= 2
    }

    /// Builds a ramp, rejecting alphabets of fewer than two glyphs.
    pub fn new(chars: Vec<char>) -> (r: Result<Ramp, RenderError>)
        ensures
            chars@.len() >= 2 ==> (r matches Ok(ramp) && ramp.chars@ == chars@ && ramp.wf()),
            chars@.len() < 2 ==> r == Err::<Ramp, RenderError>(RenderError::RampTooShort),
    {
        if chars.len() < 2 {
            Err(RenderError::RampTooShort)
        } else {
            Ok(Ramp { chars })
        }
    }

    /// The number of brightness levels the ramp distinguishes.
    pub fn len(&self) -> (n: usize)
        ensures
            n == self.chars@.len(),
    {
        self.chars.len()
    }
}

/// Maps one luminance sample to its ramp index, exactly as `ramp_index`
/// states; the result is always a valid position in the ramp.
pub fn luminance_index(lum: u8, invert: bool, ramp_len: usize) -> (idx: usize)
    requires
        ramp_len >= 2,
    ensures
        idx == ramp_index(lum, invert, ramp_len as int),
        idx < ramp_len,
{
    let level: u128 = if invert {
        255 - lum as u128
    } else {
        lum as u128
    };
    let levels_above: u128 = (ramp_len - 1) as u128;
    proof {
        lemma_index_in_range(lum, invert, ramp_len as int);
        assert(level * levels_above <= 255 * levels_above) by (nonlinear_arith)
            requires
                level <= 255,
                0 <= levels_above,
        ;
    }
    let scaled: u128 = level * levels_above;
    let idx128: u128 = (2 * scaled + 255) / 510;
    idx128 as usize
}

} // verus!
