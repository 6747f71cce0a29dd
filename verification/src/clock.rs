//! Internal clock with drift correction.
//!
//! The clock measures the time between ticks against its interval and
//! accumulates the difference as drift (in microseconds). The drift is paid
//! back on the next sleep (`next_tick_duration`), or, where it grows past
//! the maximum, written off at once as a forced correction.

use crate::time::{
    duration_as_micros, duration_as_nanos, duration_from_micros, duration_micros,
    duration_saturating_add, duration_saturating_sub, instant_duration_since, instant_elapsed,
    instant_now, max_duration_nanos,
};
use std::time::{Duration, Instant};
use vstd::prelude::*;

verus! {

/// The absolute value of an integer.
pub open spec fn abs(x: int) -> int {
    if x < 0 {
        -x
    } else {
        x
    }
}

/// Clock drift statistics.
#[derive(Debug, Clone, Copy, PartialEq, Eq, Structural, Default)]
pub struct DriftStats {
    /// Total drift in microseconds (positive = clock ran fast).
    pub total_drift_us: i64,
    /// Number of corrections applied.
    pub corrections: u64,
    /// Average correction in microseconds.
    pub avg_correction_us: i64,
}

/// Internal clock with drift correction.
pub struct Clock {
    /// The expected tick interval.
    interval: Duration,
    /// Last tick time.
    pub last_tick: Option<Instant>,
    /// Accumulated error in microseconds.
    pub drift_us: i64,
    /// Total corrections applied.
    pub corrections: u64,
    /// Sum of all correction magnitudes for averaging.
    pub correction_sum_us: u64,
    /// Maximum allowed drift before forced correction (microseconds).
    max_drift_us: u64,
    /// How many readings of the monotonic clock this clock has taken.
    readings: Ghost<nat>,
    /// Which of those readings (counting from 1) is the last tick time.
    reference: Ghost<nat>,
}

/// The maximum drift, in microseconds, that a new clock tolerates before a
/// forced correction.
pub const DEFAULT_MAX_DRIFT_US: u64 = 10_000;

/// The magnitude of a signed drift, as an unsigned number.
fn magnitude(x: i64) -> (r: u64)
    ensures
        r == abs(x as int),
{
    if x >= 0 {
        x as u64
    } else {
        ((-(x as i128)) as u64)
    }
}

/// The abstract state of a clock.
pub struct ClockView {
    /// The expected tick interval.
    pub interval: Duration,
    /// Whether a reference time has been recorded.
    pub started: bool,
    /// Accumulated error in microseconds.
    pub drift_us: i64,
    /// Total corrections applied.
    pub corrections: u64,
    /// Sum of all correction magnitudes.
    pub correction_sum_us: u64,
    /// Maximum allowed drift before forced correction (microseconds).
    pub max_drift_us: u64,
    /// How many readings of the monotonic clock the clock has taken; each
    /// is at least as late as those before it.
    pub readings: nat,
    /// Which of those readings (counting from 1) is the reference time.
    pub reference: nat,
}

impl ClockView {
    /// The drift (µs) after a tick that took `elapsed`, before any forced
    /// correction: the old drift plus the elapsed time less the interval.
    pub open spec fn drift_with(self, elapsed: Duration) -> int {
        self.drift_us + duration_micros(elapsed) - duration_micros(self.interval)
    }

    /// Whether a tick that took `elapsed` drifts past the maximum.
    pub open spec fn forces_correction(self, elapsed: Duration) -> bool {
        abs(self.drift_with(elapsed)) > self.max_drift_us
    }

    /// Whether the drift bookkeeping of a tick that took `elapsed` stays
    /// within the integer types of the clock.
    pub open spec fn can_register(self, elapsed: Duration) -> bool {
        &&& duration_micros(elapsed) <= i64::MAX
        &&& duration_micros(self.interval) <= i64::MAX
        &&& i64::MIN <= self.drift_with(elapsed) <= i64::MAX
        &&& self.forces_correction(elapsed) ==> {
            &&& self.corrections < u64::MAX
            &&& self.correction_sum_us + abs(self.drift_with(elapsed)) <= u64::MAX
        }
    }

    /// `next` is `self` after a tick that took `elapsed`: the drift grows by
    /// the error, and is written off as one correction where it passes the
    /// maximum.
    pub open spec fn after_elapsed(self, elapsed: Duration, next: ClockView) -> bool {
        &&& next.interval == self.interval
        &&& next.started == self.started
        &&& next.max_drift_us == self.max_drift_us
        &&& next.readings == self.readings
        &&& next.reference == self.reference
        &&& if self.forces_correction(elapsed) {
            &&& next.drift_us == 0
            &&& next.corrections == self.corrections + 1
            &&& next.correction_sum_us == self.correction_sum_us + abs(self.drift_with(elapsed))
        } else {
            &&& next.drift_us == self.drift_with(elapsed)
            &&& next.corrections == self.corrections
            &&& next.correction_sum_us == self.correction_sum_us
        }
    }

    /// The counters of `next` are those of `self`.
    pub open spec fn same_counters(self, next: ClockView) -> bool {
        &&& next.drift_us == self.drift_us
        &&& next.corrections == self.corrections
        &&& next.correction_sum_us == self.correction_sum_us
    }

    /// `next` is `self` after taking a new reading of the monotonic clock
    /// as its reference time.
    pub open spec fn took_reading(self, next: ClockView) -> bool {
        next == ClockView {
            started: true,
            readings: self.readings + 1,
            reference: self.readings + 1,
            ..self
        }
    }

    /// `next` may follow `self` by a tick: where the clock was started, some
    /// elapsed time was registered; then the clock took a new reading as its
    /// reference time.
    pub open spec fn ticked(self, next: ClockView) -> bool {
        let mid = ClockView {
            started: self.started,
            readings: self.readings,
            reference: self.reference,
            ..next
        };
        &&& mid.took_reading(next)
        &&& !self.started ==> mid == self
        &&& self.started ==> exists|elapsed: Duration| #[trigger] self.registered(elapsed, mid)
    }

    /// `next` is `self` after the reading `elapsed` is registered: as
    /// `after_elapsed` says, where the bookkeeping fits the integer types;
    /// else unchanged.
    pub open spec fn registered(self, elapsed: Duration, next: ClockView) -> bool {
        if self.can_register(elapsed) {
            self.after_elapsed(elapsed, next)
        } else {
            next == self
        }
    }

    /// Whether paying back the drift stays within the integer types of the
    /// clock.
    pub open spec fn can_correct(self) -> bool {
        &&& self.drift_us != i64::MIN
        &&& self.drift_us != 0 ==> self.corrections < u64::MAX
        &&& self.drift_us != 0 ==> self.correction_sum_us + abs(self.drift_us as int) <= u64::MAX
    }

    /// The sleep that pays back the drift: the interval, shortened by a
    /// negative drift (down to zero) or lengthened by a positive one (up to
    /// `Duration::MAX`), in nanoseconds.
    pub open spec fn corrected_nanos(self) -> int {
        let interval: int = duration_as_nanos(self.interval) as int;
        let shift: int = self.drift_us * 1000;
        if self.drift_us < 0 && interval + shift < 0 {
            0
        } else if self.drift_us > 0 && interval + shift > max_duration_nanos() {
            max_duration_nanos()
        } else {
            interval + shift
        }
    }

    /// `target` is the sleep for the next tick and `next` the clock after
    /// it: without drift, the interval and no change; else the corrected
    /// sleep, with the drift cleared and counted as one correction.
    pub open spec fn corrected(self, target: Duration, next: ClockView) -> bool {
        &&& self.same_config(next)
        &&& next.started == self.started
        &&& next.readings == self.readings
        &&& next.reference == self.reference
        &&& self.drift_us == 0 ==> target == self.interval && next == self
        &&& self.drift_us != 0 ==> {
            &&& duration_as_nanos(target) == self.corrected_nanos()
            &&& next.drift_us == 0
            &&& next.corrections == self.corrections + 1
            &&& next.correction_sum_us == self.correction_sum_us + abs(self.drift_us as int)
        }
    }

    /// The drift statistics of the clock: the drift, the number of
    /// corrections and their average magnitude (0 before any).
    pub open spec fn drift_stats(self) -> DriftStats {
        DriftStats {
            total_drift_us: self.drift_us,
            corrections: self.corrections,
            avg_correction_us: if self.corrections > 0 {
                (self.correction_sum_us / self.corrections) as i64
            } else {
                0
            },
        }
    }

    /// The configuration (interval and maximum drift) of `next` is that of
    /// `self`.
    pub open spec fn same_config(self, next: ClockView) -> bool {
        &&& next.interval == self.interval
        &&& next.max_drift_us == self.max_drift_us
    }
}

impl View for Clock {
    type V = ClockView;

    closed spec fn view(&self) -> ClockView {
        ClockView {
            interval: self.interval,
            started: self.last_tick is Some,
            readings: self.readings@,
            reference: self.reference@,
            drift_us: self.drift_us,
            corrections: self.corrections,
            correction_sum_us: self.correction_sum_us,
            max_drift_us: self.max_drift_us,
        }
    }
}

impl Clock {
    /// Create a new clock with the given tick interval.
    pub fn new(interval: Duration) -> (c: Self)
        ensures
            c@ == (ClockView {
                interval,
                started: false,
                drift_us: 0,
                corrections: 0,
                correction_sum_us: 0,
                max_drift_us: DEFAULT_MAX_DRIFT_US,
                readings: 0,
                reference: 0,
            }),
    {
        Self {
            interval,
            last_tick: None,
            drift_us: 0,
            corrections: 0,
            correction_sum_us: 0,
            max_drift_us: DEFAULT_MAX_DRIFT_US,
            readings: Ghost(0),
            reference: Ghost(0),
        }
    }

    /// Start the clock (record the reference time): a new reading of the
    /// monotonic clock becomes the reference.
    pub fn start(&mut self)
        ensures
            old(self)@.took_reading(final(self)@),
    {
        self.last_tick = Some(instant_now());
        proof {
            self.readings@ = self.readings@ + 1;
            self.reference@ = self.readings@;
        }
    }

    /// Set the tick interval.
    pub fn set_interval(&mut self, interval: Duration)
        ensures
            final(self)@ == (ClockView { interval, ..old(self)@ }),
    {
        self.interval = interval;
    }

    /// Get the tick interval.
    pub fn interval(&self) -> (r: Duration)
        ensures
            r == self@.interval,
    {
        self.interval
    }

    /// Compute the corrected sleep duration for the next tick.
    ///
    /// Returns the duration to sleep, accounting for accumulated drift.
    /// A negative drift (clock ran slow) shortens the sleep;
    /// a positive drift (clock ran fast) lengthens it. Any drift is then
    /// counted as one correction and cleared.
    pub fn next_tick_duration(&mut self) -> (target: Duration)
        requires
            old(self)@.can_correct(),
        ensures
            old(self)@.corrected(target, final(self)@),
    {
        let mut target = self.interval;

        // Apply drift correction
        if self.drift_us != 0 {
            let correction: i64 = -self.drift_us;  // opposite sign to correct
            let amount: u64 = magnitude(correction);
            let correction_dur = duration_from_micros(amount);
            if correction > 0 {
                target = duration_saturating_sub(target, correction_dur);
            } else {
                target = duration_saturating_add(target, correction_dur);
            }
            self.corrections = self.corrections + 1;
            self.correction_sum_us = self.correction_sum_us + amount;
            self.drift_us = 0;  // reset after correction
        }
        target
    }

    /// Exec check of `can_register`.
    fn registrable(&self, elapsed: &Duration) -> (b: bool)
        ensures
            b == self@.can_register(*elapsed),
    {
        let e: u128 = duration_as_micros(elapsed);
        let i: u128 = duration_as_micros(&self.interval);
        if e > 0x7fff_ffff_ffff_ffffu128 || i > 0x7fff_ffff_ffff_ffffu128 {
            return false;
        }
        let d: i128 = self.drift_us as i128 + e as i128 - i as i128;
        if d < -0x8000_0000_0000_0000i128 || d > 0x7fff_ffff_ffff_ffffi128 {
            return false;
        }
        let a: u128 = if d < 0 {
            (-d) as u128
        } else {
            d as u128
        };
        if a > self.max_drift_us as u128 {
            self.corrections < u64::MAX && (self.correction_sum_us as u128) + a
                <= 0xffff_ffff_ffff_ffffu128
        } else {
            true
        }
    }

    /// Account for a tick that came `elapsed` after the previous one: the
    /// difference to the interval is added to the drift, and a drift past
    /// the maximum is written off as a correction. A reading whose
    /// bookkeeping would overflow the counters changes nothing.
    pub fn register_elapsed(&mut self, elapsed: Duration)
        ensures
            old(self)@.registered(elapsed, final(self)@),
            old(self)@.can_register(elapsed) ==> abs(final(self)@.drift_us as int)
                <= final(self)@.max_drift_us,
    {
        if !self.registrable(&elapsed) {
            return;
        }
        let elapsed_us: u128 = duration_as_micros(&elapsed);
        let expected_us: u128 = duration_as_micros(&self.interval);
        let diff: i64 = elapsed_us as i64 - expected_us as i64;
        self.drift_us = self.drift_us + diff;

        // Force correction if drift exceeds max
        let amount: u64 = magnitude(self.drift_us);
        if amount > self.max_drift_us {
            self.corrections = self.corrections + 1;
            self.correction_sum_us = self.correction_sum_us + amount;
            self.drift_us = 0;
        }
    }

    /// Mark that a tick has occurred. Updates drift tracking.
    ///
    /// Where the clock was started, the time since the last tick is
    /// registered (`register_elapsed`).
    pub fn tick(&mut self)
        ensures
            old(self)@.ticked(final(self)@),
    {
        let now = instant_now();
        if let Some(last) = &self.last_tick {
            let elapsed = instant_duration_since(&now, last);
            self.register_elapsed(elapsed);
        }
        self.last_tick = Some(now);
        proof {
            self.readings@ = self.readings@ + 1;
            self.reference@ = self.readings@;
        }
    }

    /// Reset the clock state.
    pub fn reset(&mut self)
        ensures
            final(self)@ == (ClockView {
                started: false,
                drift_us: 0,
                corrections: 0,
                correction_sum_us: 0,
                ..old(self)@
            }),
    {
        self.last_tick = None;
        self.drift_us = 0;
        self.corrections = 0;
        self.correction_sum_us = 0;
    }

    /// Get current drift in microseconds.
    pub fn current_drift_us(&self) -> (r: i64)
        ensures
            r == self@.drift_us,
    {
        self.drift_us
    }

    /// Get drift statistics.
    pub fn stats(&self) -> (s: DriftStats)
        ensures
            s == self@.drift_stats(),
    {
        DriftStats {
            total_drift_us: self.drift_us,
            corrections: self.corrections,
            avg_correction_us: if self.corrections > 0 {
                self.correction_sum_us.checked_div(self.corrections).unwrap_or(0) as i64
            } else {
                0
            },
        }
    }

    /// Elapsed time since last tick (or start).
    pub fn elapsed(&self) -> (r: Option<Duration>)
        ensures
            r is Some <==> self@.started,
    {
        match &self.last_tick {
            Some(t) => Some(instant_elapsed(t)),
            None => None,
        }
    }
}

/// A correction is applied once: right after paying back the drift, the
/// next sleep is the plain interval and changes nothing.
pub proof fn lemma_correction_applies_once(
    clock: ClockView,
    first: Duration,
    corrected: ClockView,
    second: Duration,
    again: ClockView,
)
    requires
        clock.corrected(first, corrected),
        corrected.corrected(second, again),
    ensures
        corrected.drift_us == 0,
        second == corrected.interval,
        again == corrected,
        again.drift_stats() == corrected.drift_stats(),
{
}

/// Ticks keep the drift within the maximum: a clock whose drift is within
/// its maximum (as every clock used only through its methods is) stays so
/// after a tick, whatever the reading; a larger drift is written off as a
/// correction.
pub proof fn lemma_tick_keeps_drift_bounded(clock: ClockView, next: ClockView)
    requires
        abs(clock.drift_us as int) <= clock.max_drift_us,
        clock.ticked(next),
    ensures
        abs(next.drift_us as int) <= next.max_drift_us,
{
    let mid = ClockView {
        started: clock.started,
        readings: clock.readings,
        reference: clock.reference,
        ..next
    };
    if clock.started {
        let elapsed: Duration = choose|elapsed: Duration| #[trigger] clock.registered(elapsed, mid);
        assert(clock.registered(elapsed, mid));
    }
}

/// A registered reading that drifts past the maximum is written off: the
/// drift goes back to zero and one correction of its size is counted.
pub proof fn lemma_large_drift_written_off(clock: ClockView, elapsed: Duration, next: ClockView)
    requires
        clock.registered(elapsed, next),
        clock.can_register(elapsed),
        clock.forces_correction(elapsed),
    ensures
        next.drift_us == 0,
        next.corrections == clock.corrections + 1,
        next.correction_sum_us == clock.correction_sum_us + abs(clock.drift_with(elapsed)),
{
}

} // verus!
