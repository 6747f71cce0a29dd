//! Wall-clock readings and durations, as `std::time` provides them.
//!
//! A `Duration` is modelled by its length in whole nanoseconds
//! (`duration_as_nanos`); an `Instant` is an opaque reading of the
//! monotonic clock.

use std::time::{Duration, Instant};
use vstd::prelude::*;

verus! {

/// `std::time::Instant`: an opaque reading of the monotonic clock.
#[verifier::external_type_specification]
#[verifier::external_body]
pub struct ExInstant(Instant);

/// The length of a duration in whole nanoseconds, as `Duration::as_nanos`
/// reports it.
pub uninterp spec fn duration_as_nanos(d: Duration) -> u128;

/// The length of a duration in whole microseconds (`Duration::as_micros`).
pub open spec fn duration_micros(d: Duration) -> int {
    (duration_as_nanos(d) / 1000) as int
}

/// The length of `Duration::MAX` in nanoseconds: `u64::MAX` seconds and
/// 999_999_999 nanoseconds.
pub open spec fn max_duration_nanos() -> int {
    u64::MAX * 1_000_000_000 + 999_999_999
}

/// Calls `Duration::as_nanos`: the length in whole nanoseconds.
#[verifier::external_body]
pub(crate) fn duration_nanos(d: &Duration) -> (r: u128)
    ensures
        r == duration_as_nanos(*d),
{
    d.as_nanos()
}

/// The length of a duration in whole microseconds, as `Duration::as_micros`
/// gives it.
pub(crate) fn duration_as_micros(d: &Duration) -> (r: u128)
    ensures
        r == duration_micros(*d),
{
    duration_nanos(d) / 1000
}

/// Calls `Duration::from_micros`; the documentation gives a duration of
/// `us` microseconds, that is `us * 1000` nanoseconds.
#[verifier::external_body]
pub(crate) fn duration_from_micros(us: u64) -> (d: Duration)
    ensures
        duration_as_nanos(d) == us * 1000,
{
    Duration::from_micros(us)
}

/// Calls `Duration::saturating_sub`; the documentation gives `a - b`, or
/// zero where `b` is longer than `a`.
#[verifier::external_body]
pub(crate) fn duration_saturating_sub(a: Duration, b: Duration) -> (r: Duration)
    ensures
        duration_as_nanos(r) == (if duration_as_nanos(a) >= duration_as_nanos(b) {
            duration_as_nanos(a) - duration_as_nanos(b)
        } else {
            0
        }),
{
    a.saturating_sub(b)
}

/// Calls `Duration::saturating_add`; the documentation gives `a + b`, or
/// `Duration::MAX` where the sum does not fit.
#[verifier::external_body]
pub(crate) fn duration_saturating_add(a: Duration, b: Duration) -> (r: Duration)
    ensures
        duration_as_nanos(r) == (if duration_as_nanos(a) + duration_as_nanos(b)
            <= max_duration_nanos() {
            duration_as_nanos(a) + duration_as_nanos(b)
        } else {
            max_duration_nanos()
        }),
{
    a.saturating_add(b)
}

/// Calls `Instant::now`: a reading of the monotonic clock, of which nothing
/// can be promised here.
#[verifier::external_body]
pub(crate) fn instant_now() -> Instant {
    Instant::now()
}

/// Calls `Instant::elapsed`: the time since the reading, which depends on
/// the clock and is left unstated.
#[verifier::external_body]
pub(crate) fn instant_elapsed(i: &Instant) -> Duration {
    i.elapsed()
}

/// Calls `Instant::duration_since`, which saturates at zero where `earlier`
/// is later; the length depends on the two clock readings and is left
/// unstated.
#[verifier::external_body]
pub(crate) fn instant_duration_since(later: &Instant, earlier: &Instant) -> Duration {
    later.duration_since(*earlier)
}

} // verus!
