//! Frame pacing decisions over plain microsecond counts: how long to
//! sleep to hold a target frame duration, and the measured delta of the
//! last frame. Reading clocks and sleeping stay with the caller.

use vstd::prelude::*;

verus! {

/// Holds the target frame duration and the last measured frame delta,
/// both in microseconds.
#[derive(Clone, Copy, Debug, PartialEq, Eq, Structural)]
pub struct FpsLimiter {
    pub target_frame_duration_micros: u64,
    pub delta_frame_micros: u32,
}

impl FpsLimiter {
    /// A limiter that paces frames to the given duration.
    pub fn new(target_frame_duration_micros: u64) -> (l: FpsLimiter)
        ensures
            l.target_frame_duration_micros == target_frame_duration_micros,
            l.delta_frame_micros == 0,
    {
        FpsLimiter { target_frame_duration_micros, delta_frame_micros: 0 }
    }

    /// How long to sleep after a frame that took the given time: the
    /// remainder of the target duration, except that sleeps shorter
    /// than a millisecond are skipped.
    pub fn plan_sleep(&self, real_frame_duration_micros: u64) -> (sleep_micros: u64)
        ensures
            sleep_micros == if real_frame_duration_micros + 1000
                <= self.target_frame_duration_micros {
                (self.target_frame_duration_micros - real_frame_duration_micros) as int
            } else {
                0int
            },
    {
        if real_frame_duration_micros < self.target_frame_duration_micros
            && self.target_frame_duration_micros - real_frame_duration_micros >= 1000 {
            self.target_frame_duration_micros - real_frame_duration_micros
        } else {
            0
        }
    }

    /// Record the measured duration of the frame that just ended.
    pub fn record_frame(&mut self, delta_micros: u32)
        ensures
            final(self).delta_frame_micros == delta_micros,
            final(self).target_frame_duration_micros == old(self).target_frame_duration_micros,
    {
        self.delta_frame_micros = delta_micros;
    }

    /// The last measured frame delta, in microseconds.
    pub fn delta_micros(&self) -> (d: u32)
        ensures
            d == self.delta_frame_micros,
    {
        self.delta_frame_micros
    }
}

} // verus!
