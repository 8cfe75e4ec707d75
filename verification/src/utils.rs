//! A stopwatch over the ticks of a monotonic clock.
use vstd::prelude::*;

verus! {

/// Remembers the clock reading at which it was started.
#[derive(Clone, Copy, Debug)]
pub struct Timer {
    start: u32,
}

impl Timer {
    /// The clock reading the timer was started at.
    pub closed spec fn started_at(self) -> u32 {
        self.start
    }

    /// A timer started at the clock reading `now`.
    pub fn start(now: u32) -> (timer: Timer)
        ensures
            timer.started_at() == now,
    {
        Timer { start: now }
    }

    /// The clock reading the timer was started at.
    pub fn started(&self) -> (ticks: u32)
        ensures
            ticks == self.started_at(),
    {
        self.start
    }

    /// Ticks from the start to the clock reading `now`, which must not lie
    /// before the start.
    pub fn end(&self, now: u32) -> (elapsed: u32)
        requires
            self.started_at() <= now,
        ensures
            elapsed == now - self.started_at(),
    {
        now - self.start
    }
}

} // verus!
