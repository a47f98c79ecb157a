use vstd::prelude::*;
use crate::util::clock::{elapsed_between, lap_decided, nanos_between, quanta_now};

verus! {

/// A timer that reports, once per lap, when a fixed duration has passed. Lap
/// starts are clock readings in nanoseconds since the timer's origin.
pub struct Timer {
    origin: quanta::Instant,
    start_of_lap: u64,
    duration: u64,
}

impl Timer {
    /// When the current lap started, in nanoseconds since the timer's origin.
    pub closed spec fn start_of_lap(&self) -> u64 {
        self.start_of_lap
    }

    /// The length of a lap, in nanoseconds.
    pub closed spec fn duration(&self) -> u64 {
        self.duration
    }

    /// A timer for laps of `duration` nanoseconds, whose origin is now and whose
    /// first lap starts there.
    pub fn new(duration: u64) -> (t: Self)
        ensures
            t.duration() == duration,
            t.start_of_lap() == 0,
    {
        Timer { origin: quanta_now(), start_of_lap: 0, duration }
    }

    /// A reading of the clock, in nanoseconds since the timer's origin.
    fn reading(&self) -> u64 {
        nanos_between(quanta_now(), self.origin)
    }

    /// The lap decision at clock reading `now`: the lap is over when at least a
    /// lap's duration has passed since it started, and then a new lap starts at
    /// `now`.
    pub fn lap_at(&mut self, now: u64) -> (r: bool)
        ensures
            final(self).duration() == old(self).duration(),
            lap_decided(now, old(self).start_of_lap(), old(self).duration(), r, final(self).start_of_lap()),
    {
        let elapsed = now.saturating_sub(self.start_of_lap);
        assert(elapsed == elapsed_between(now, self.start_of_lap));
        let is_elapsed = elapsed >= self.duration;
        if is_elapsed {
            self.start_of_lap = now;
        }
        is_elapsed
    }

    /// Whether the current lap is over; if so, a new lap starts now. A lap of
    /// zero length is always over.
    pub fn is_elapsed(&mut self) -> (r: bool)
        ensures
            final(self).duration() == old(self).duration(),
            old(self).duration() == 0 ==> r,
            exists|now: u64| #[trigger] lap_decided(now, old(self).start_of_lap(), old(self).duration(), r, final(self).start_of_lap()),
    {
        let now = self.reading();
        self.lap_at(now)
    }
}

} // verus!
