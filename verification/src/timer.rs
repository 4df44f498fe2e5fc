use vstd::prelude::*;

use crate::config::{MAX_DT, MAX_TIMER};

verus! {

/// A repeating per-entity countdown.  Advancing it accumulates elapsed time;
/// once the elapsed time reaches the duration the timer fires and the elapsed
/// time resets to zero, so it fires once per tick it remains expired.
#[derive(Clone, Copy, PartialEq, Eq, Structural, Debug)]
pub struct FrameTimer {
    /// Time the timer runs before firing, in centiseconds.
    pub duration: i64,
    /// Time accumulated since the last fire, in centiseconds.
    pub elapsed: i64,
}

impl FrameTimer {
    pub open spec fn wf(self) -> bool {
        &&& 0 <= self.duration <= MAX_TIMER
        &&& 0 <= self.elapsed <= MAX_TIMER
    }

    /// A fresh timer with the given duration and no accumulated time.
    pub fn new(duration: i64) -> (t: FrameTimer)
        requires
            0 <= duration <= MAX_TIMER,
        ensures
            t.wf(),
            t == (FrameTimer { duration, elapsed: 0 }),
    {
        FrameTimer { duration, elapsed: 0 }
    }

    /// Accumulates `dt` and reports whether the timer fired, resetting the
    /// elapsed time when it does.
    pub fn advance(&mut self, dt: i64) -> (fired: bool)
        requires
            old(self).wf(),
            0 <= dt <= MAX_DT,
        ensures
            final(self).wf(),
            final(self).duration == old(self).duration,
            fired == (old(self).elapsed + dt >= old(self).duration),
            fired ==> final(self).elapsed == 0,
            !fired ==> final(self).elapsed == old(self).elapsed + dt,
    {
        self.elapsed = self.elapsed + dt;
        if self.elapsed >= self.duration {
            self.elapsed = 0;
            true
        } else {
            false
        }
    }

    /// Replaces the duration; the elapsed time is kept.
    pub fn set_duration(&mut self, duration: i64)
        requires
            old(self).wf(),
            0 <= duration <= MAX_TIMER,
        ensures
            final(self).wf(),
            final(self).duration == duration,
            final(self).elapsed == old(self).elapsed,
    {
        self.duration = duration;
    }
}

} // verus!
