//! Per-frame timing: the delta-time rule of the frame orchestrator.
//!
//! The clock is a monotonic tick counter supplied by the surrounding
//! application; `TICKS_PER_SECOND` is divisible by 60 so that the fixed
//! first-frame delta of one sixtieth of a second is an exact tick count.

use vstd::prelude::*;

verus! {

/// Resolution of the monotonic clock the orchestrator is driven by.
pub const TICKS_PER_SECOND: u64 = 60000000;

/// Delta used on the very first frame, when no prior sample exists:
/// exactly one sixtieth of a second.
pub const DEFAULT_FRAME_TICKS: u64 = TICKS_PER_SECOND / 60;

/// The delta-time rule: the fixed default on the first frame, otherwise
/// the elapsed ticks since the previous frame, clamped to non-negative.
pub open spec fn delta_spec(last: Option<u64>, now: u64) -> u64 {
    match last {
        None => DEFAULT_FRAME_TICKS,
        Some(t) => if now >= t {
            (now - t) as u64
        } else {
            0
        },
    }
}

/// Remembers the previous frame's clock sample.
#[derive(Debug)]
pub struct FrameTimer {
    pub last: Option<u64>,
}

impl FrameTimer {
    /// A fresh timer: no frame has been timed yet.
    pub fn new() -> (t: FrameTimer)
        ensures
            t.last is None,
    {
        FrameTimer { last: None }
    }

    /// Computes this frame's delta from the clock sample `now` and
    /// stores `now` as the new previous sample. Called exactly once per
    /// frame, whether or not the frame is eventually rendered.
    pub fn next_delta(&mut self, now: u64) -> (delta: u64)
        ensures
            delta == delta_spec(old(self).last, now),
            final(self).last == Some(now),
    {
        let delta = match self.last {
            None => DEFAULT_FRAME_TICKS,
            Some(t) => if now >= t {
                now - t
            } else {
                0
            },
        };
        self.last = Some(now);
        delta
    }
}

/// A session's first frame is timed with exactly one sixtieth of a
/// second, because no prior sample exists; the second frame with the
/// elapsed time `t2 - t1` between the two clock samples.
pub proof fn lemma_first_two_frame_deltas(t1: u64, t2: u64)
    requires
        t1 <= t2,
    ensures
        delta_spec(None, t1) == TICKS_PER_SECOND / 60,
        delta_spec(Some(t1), t2) == t2 - t1,
{
}

} // verus!
