//! Explicit per-iteration timing state for the display loop: the caller
//! hands in each frame's timestamp and gets the frame rate back, so the
//! loop carries no process-wide mutable state.

use vstd::prelude::*;
use crate::math::round_div;
use crate::math::lemma_round_div_bounds;

verus! {

/// Nanoseconds per second, scaled by ten: dividing it by a frame interval
/// in nanoseconds gives the frame rate in tenths of a frame per second.
pub const TENTHS_PER_SECOND_NANOS: u64 = 10_000_000_000;

/// The timing state of the display loop: the timestamp of the last frame,
/// in nanoseconds of some monotonic clock.
pub struct FpsCounter {
    pub last_nanos: u64,
}

impl FpsCounter {
    /// Starts counting from the given timestamp.
    pub fn new(now_nanos: u64) -> (c: FpsCounter)
        ensures
            c.last_nanos == now_nanos,
    {
        FpsCounter { last_nanos: now_nanos }
    }

    /// Records one frame at the given timestamp and returns the frame rate
    /// over the interval since the previous one, in tenths of a frame per
    /// second, rounded to the nearest tenth.
    pub fn tick(&mut self, now_nanos: u64) -> (fps_tenths: u64)
        requires
            old(self).last_nanos < now_nanos,
        ensures
            final(self).last_nanos == now_nanos,
            fps_tenths == round_div(
                TENTHS_PER_SECOND_NANOS as int,
                now_nanos - old(self).last_nanos,
            ),
    {
        let delta: u64 = now_nanos - self.last_nanos;
        let n: u128 = TENTHS_PER_SECOND_NANOS as u128;
        let q: u128 = (2 * n + delta as u128) / (2 * delta as u128);
        proof {
            assert((n as int) <= (n as int) * (delta as int)) by (nonlinear_arith)
                requires
                    delta >= 1,
                    n >= 0,
            ;
            lemma_round_div_bounds(n as int, delta as int, n as int);
        }
        self.last_nanos = now_nanos;
        q as u64
    }
}

} // verus!
