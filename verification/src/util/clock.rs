use vstd::prelude::*;

verus! {

#[verifier::external_type_specification]
#[verifier::external_body]
pub struct ExQuantaInstant(quanta::Instant);

/// `quanta::Instant::now`. The reading depends on the clock; nothing is promised.
#[verifier::external_body]
pub(crate) fn quanta_now() -> quanta::Instant {
    quanta::Instant::now()
}

/// `quanta::Instant::duration_since` (`later - earlier`, zero when `earlier` is
/// the later one), in whole nanoseconds. The instants are clock readings with
/// no contract, so nothing is promised of the value.
#[verifier::external_body]
pub(crate) fn nanos_between(later: quanta::Instant, earlier: quanta::Instant) -> u64 {
    later.duration_since(earlier).as_nanos() as u64
}

/// The nanoseconds from `start` to `now`, or zero when `now` is the earlier
/// reading.
pub open spec fn elapsed_between(now: u64, start: u64) -> u64 {
    if now >= start {
        (now - start) as u64
    } else {
        0
    }
}

/// A lap decision at clock reading `now` (nanoseconds since the timer's origin)
/// for a lap that started at `start` and lasts `duration` nanoseconds: the lap
/// `ended` exactly when the duration has passed since its start, and then the
/// next lap starts at `now` (`next_start`); otherwise the lap goes on.
pub open spec fn lap_decided(now: u64, start: u64, duration: u64, ended: bool, next_start: u64) -> bool {
    &&& ended == (elapsed_between(now, start) >= duration)
    &&& ended ==> next_start == now
    &&& !ended ==> next_start == start
}

} // verus!
