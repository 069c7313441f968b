//! Repeating countdown timers, the only source of deferred behaviour in the
//! simulation: one drives the sprite animation, one the obstacle spawn cadence.

use vstd::prelude::*;

verus! {

/// Mathematical model of a repeating countdown timer: the interval's length
/// and how much of the current interval has already elapsed.
pub ghost struct TimerModel {
    pub interval: int,
    pub elapsed: int,
}

impl TimerModel {
    /// A well-formed timer has a positive interval, and the elapsed amount
    /// lies strictly inside it.
    pub open spec fn wf(self) -> bool {
        0 < self.interval && 0 <= self.elapsed < self.interval
    }
}

/// True when advancing the timer by `delta` completes the current interval.
pub open spec fn timer_fires(t: TimerModel, delta: int) -> bool {
    t.elapsed + delta >= t.interval
}

/// The timer's state after advancing by `delta`: the interval is unchanged,
/// and time past the last completed interval boundary carries over into the
/// next interval.
pub open spec fn timer_after(t: TimerModel, delta: int) -> TimerModel {
    TimerModel { interval: t.interval, elapsed: (t.elapsed + delta) % t.interval }
}

/// A repeating countdown timer over whole milliseconds.
#[derive(Clone, Copy, Debug)]
pub struct RepeatTimer {
    pub interval_ms: u64,
    pub elapsed_ms: u64,
}

impl View for RepeatTimer {
    type V = TimerModel;

    open spec fn view(&self) -> TimerModel {
        TimerModel { interval: self.interval_ms as int, elapsed: self.elapsed_ms as int }
    }
}

impl RepeatTimer {
    pub open spec fn wf(self) -> bool {
        self@.wf()
    }

    /// A fresh repeating timer with nothing elapsed yet.
    pub fn new(interval_ms: u64) -> (t: RepeatTimer)
        requires
            interval_ms > 0,
        ensures
            t.wf(),
            t@ == (TimerModel { interval: interval_ms as int, elapsed: 0 }),
    {
        RepeatTimer { interval_ms, elapsed_ms: 0 }
    }

    /// Advance the timer by `delta_ms`, reporting whether an interval
    /// boundary was crossed during this advance.
    pub fn tick(&mut self, delta_ms: u64) -> (fired: bool)
        requires
            old(self).wf(),
            delta_ms <= u64::MAX - old(self).interval_ms,
        ensures
            final(self).wf(),
            fired == timer_fires(old(self)@, delta_ms as int),
            final(self)@ == timer_after(old(self)@, delta_ms as int),
    {
        let total: u64 = self.elapsed_ms + delta_ms;
        let fired = total >= self.interval_ms;
        self.elapsed_ms = total % self.interval_ms;
        fired
    }
}

} // verus!
