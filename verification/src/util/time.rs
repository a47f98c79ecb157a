use vstd::prelude::*;
use crate::util::clock::{elapsed_between, lap_decided, nanos_between, quanta_now};

verus! {

/// A timer that reports, once per lap, when a given duration has passed. Lap
/// starts are clock readings in nanoseconds since the timer's origin.
#[derive(Debug)]
pub struct Timer {
    origin: quanta::Instant,
    start_of_lap: u64,
}

impl Timer {
    /// When the current lap started, in nanoseconds since the timer's origin.
    pub closed spec fn start_of_lap(&self) -> u64 {
        self.start_of_lap
    }

    /// A timer whose origin is now and whose first lap starts there.
    pub fn new() -> (t: Self)
        ensures
            t.start_of_lap() == 0,
    {
        Timer { origin: quanta_now(), start_of_lap: 0 }
    }

    /// A reading of the clock, in nanoseconds since the timer's origin.
    fn reading(&self) -> u64 {
        nanos_between(quanta_now(), self.origin)
    }

    /// The lap decision at clock reading `now`: the lap is over when at least
    /// `duration` nanoseconds have passed since it started, and then a new lap
    /// starts at `now`.
    pub fn lap_at(&mut self, now: u64, duration: u64) -> (r: bool)
        ensures
            lap_decided(now, old(self).start_of_lap(), duration, r, final(self).start_of_lap()),
    {
        let elapsed = now.saturating_sub(self.start_of_lap);
        assert(elapsed == elapsed_between(now, self.start_of_lap));
        let is_elapsed = elapsed >= duration;
        if is_elapsed {
            self.start_of_lap = now;
        }
        is_elapsed
    }

    /// Whether `duration` nanoseconds have passed since the lap started; if so, a
    /// new lap starts now. A zero duration has always passed.
    pub fn has_elapsed(&mut self, duration: u64) -> (r: bool)
        ensures
            duration == 0 ==> r,
            exists|now: u64| #[trigger] lap_decided(now, old(self).start_of_lap(), duration, r, final(self).start_of_lap()),
    {
        let now = self.reading();
        self.lap_at(now, duration)
    }
}

impl Default for Timer {
    fn default() -> (t: Self)
        ensures
            t.start_of_lap() == 0,
    {
        Self::new()
    }
}

} // verus!
