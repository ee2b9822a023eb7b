//! Clock abstraction: a virtual clock for deterministic replay; wall-clock
//! time is supplied by the application.
use vstd::prelude::*;

verus! {

/// Time source for the pipeline, in milliseconds.
pub trait Clock {
    /// Current timestamp in milliseconds.
    fn now_ms(&self) -> u64;

    /// Moves the clock forward (only meaningful for a virtual clock).
    fn advance(&mut self, ms: u64);

    /// Waits for a duration (modelled for a virtual clock, real for wall time).
    fn sleep_ms(&mut self, ms: u64);
}

/// A clock whose time only moves when told to.
#[derive(Debug)]
pub struct VirtualClock {
    current_ms: u64,
}

impl VirtualClock {
    /// The time this clock shows.
    pub closed spec fn time(&self) -> u64 {
        self.current_ms
    }

    /// A clock showing `start_ms`.
    pub fn new(start_ms: u64) -> (r: Self)
        ensures
            r.time() == start_ms,
    {
        VirtualClock { current_ms: start_ms }
    }

    /// Sets the time to `ms`.
    pub fn set(&mut self, ms: u64)
        ensures
            final(self).time() == ms,
    {
        self.current_ms = ms;
    }
}

impl Default for VirtualClock {
    fn default() -> (r: Self)
        ensures
            r.time() == 0,
    {
        VirtualClock::new(0)
    }
}

impl Clock for VirtualClock {
    fn now_ms(&self) -> (r: u64)
        ensures
            r == self.time(),
    {
        self.current_ms
    }

    /// Adds `ms`, wrapping around on overflow as an atomic counter does.
    fn advance(&mut self, ms: u64)
        ensures
            final(self).time() == old(self).time().wrapping_add(ms),
    {
        self.current_ms = self.current_ms.wrapping_add(ms);
    }

    /// Sleeping on a virtual clock advances it.
    fn sleep_ms(&mut self, ms: u64)
        ensures
            final(self).time() == old(self).time().wrapping_add(ms),
    {
        self.advance(ms);
    }
}

} // verus!
