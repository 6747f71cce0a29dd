//! Fermata — pause/resume with duration tracking.

use crate::time::{duration_as_micros, duration_as_nanos, duration_from_micros, duration_micros, instant_elapsed, instant_now};
use std::time::{Duration, Instant};
use vstd::prelude::*;
use vstd::wrapping::u64_specs::wrapping_add;

verus! {

/// The moment at which a fermata was activated.
#[derive(Debug, Clone, Copy)]
struct FermataInstant {
    inner: Instant,
}

impl FermataInstant {
    fn now() -> Self {
        Self { inner: instant_now() }
    }

    fn elapsed(&self) -> Duration {
        instant_elapsed(&self.inner)
    }
}

/// Fermata state: pause/resume with duration tracking.
#[derive(Debug, Clone)]
pub struct Fermata {
    /// Whether the fermata is currently active (paused).
    active: bool,
    /// Total accumulated pause duration across all activations.
    total_pause_duration_us: u64,
    /// Duration of the current (or most recent) pause in microseconds.
    current_pause_duration_us: u64,
    /// Whether a pause has ended since creation or the last reset.
    paused_before: bool,
    /// Moment at which the fermata was activated.
    activated_at: Option<FermataInstant>,
}

/// The abstract state of a fermata.
pub struct FermataView {
    /// Whether the fermata is currently active (paused).
    pub active: bool,
    /// Whether the moment of activation is known (it is not after a
    /// fermata is rebuilt from its stored parts).
    pub timed: bool,
    /// Total accumulated pause, in microseconds.
    pub total_us: u64,
    /// The most recent pause, in microseconds.
    pub last_us: u64,
    /// Whether a pause has ended since creation or the last reset.
    pub ended: bool,
}

impl View for Fermata {
    type V = FermataView;

    closed spec fn view(&self) -> FermataView {
        FermataView {
            active: self.active,
            timed: self.activated_at is Some,
            total_us: self.total_pause_duration_us,
            last_us: self.current_pause_duration_us,
            ended: self.paused_before,
        }
    }
}

/// The pause of `d`, in whole microseconds, as the fermata records it (the
/// microsecond count taken modulo 2^64, as `as u64` does).
pub open spec fn pause_us(d: Duration) -> u64 {
    duration_micros(d) as u64
}

impl FermataView {
    /// The fermata is well formed: the moment of activation is recorded
    /// only while a pause runs.
    pub open spec fn wf(self) -> bool {
        !self.active ==> !self.timed
    }

    /// `next` is `self` after a pause of `d` has ended.
    pub open spec fn ended_after(self, d: Duration, next: FermataView) -> bool {
        &&& !next.active
        &&& !next.timed
        &&& next.last_us == pause_us(d)
        &&& next.total_us == wrapping_add(self.total_us, pause_us(d))
        &&& next.ended
    }

    /// `next` is `self` after one whole pause of `d`: started while no pause
    /// ran, then ended.
    pub open spec fn pause_cycle(self, d: Duration, next: FermataView) -> bool {
        &&& !self.active
        &&& (FermataView { active: true, timed: true, ..self }).ended_after(d, next)
    }

    /// `next` is `self` after an activation: unchanged where a pause is
    /// already running, else a pause timed from now.
    pub open spec fn activated(self, next: FermataView) -> bool {
        if self.active {
            next == self
        } else {
            next == FermataView { active: true, timed: true, ..self }
        }
    }

    /// `next` may follow `self` by a deactivation: unchanged where no pause
    /// was running; else the pause ended after some duration.
    pub open spec fn deactivated(self, next: FermataView) -> bool {
        ||| !self.active && next == self
        ||| self.active && exists|d: Duration| #[trigger] self.ended_after(d, next)
    }
}

impl Default for Fermata {
    fn default() -> (f: Self)
        ensures
            f@ == (FermataView { active: false, timed: false, total_us: 0, last_us: 0, ended: false }),
    {
        Self::new()
    }
}

impl Fermata {
    /// Create a new inactive fermata.
    pub fn new() -> (f: Self)
        ensures
            f@ == (FermataView { active: false, timed: false, total_us: 0, last_us: 0, ended: false }),
    {
        Self {
            active: false,
            total_pause_duration_us: 0,
            current_pause_duration_us: 0,
            paused_before: false,
            activated_at: None,
        }
    }

    /// Rebuild a fermata from its stored parts (the moment of activation is
    /// not stored, so it is unknown; a positive total shows that a pause has
    /// ended).
    pub fn from_parts(active: bool, total_pause_duration_us: u64, current_pause_duration_us: u64) -> (f: Self)
        ensures
            f@ == (FermataView {
                active,
                timed: false,
                total_us: total_pause_duration_us,
                last_us: current_pause_duration_us,
                ended: total_pause_duration_us > 0,
            }),
    {
        Self {
            active,
            total_pause_duration_us,
            current_pause_duration_us,
            paused_before: total_pause_duration_us > 0,
            activated_at: None,
        }
    }

    /// Activate (pause). Returns false if already active.
    pub fn activate(&mut self) -> (r: bool)
        ensures
            r == !old(self)@.active,
            old(self)@.activated(final(self)@),
    {
        if self.active {
            return false;
        }
        self.active = true;
        self.activated_at = Some(FermataInstant::now());
        true
    }

    /// End the pause, which lasted `duration`: it becomes the last pause and
    /// is added to the total (which wraps around past `u64::MAX`
    /// microseconds). Returns `duration`, or `None` (and changes nothing)
    /// where the fermata was not active.
    pub fn deactivate_after(&mut self, duration: Duration) -> (r: Option<Duration>)
        ensures
            !old(self)@.active ==> r is None && final(self)@ == old(self)@,
            old(self)@.active ==> r == Some(duration) && old(self)@.ended_after(
                duration,
                final(self)@,
            ),
    {
        if !self.active {
            return None;
        }
        self.current_pause_duration_us = #[verifier::truncate] (duration_as_micros(&duration) as u64);
        self.total_pause_duration_us = self.total_pause_duration_us.wrapping_add(
            self.current_pause_duration_us,
        );
        self.activated_at = None;
        self.active = false;
        self.paused_before = true;
        Some(duration)
    }

    /// Deactivate (resume). Returns the duration of this pause, or None if
    /// wasn't active.
    ///
    /// The pause lasted from activation until now, or zero where the moment
    /// of activation is unknown (a fermata rebuilt from its parts).
    pub fn deactivate(&mut self) -> (r: Option<Duration>)
        ensures
            old(self)@.deactivated(final(self)@),
            !old(self)@.active ==> r is None && final(self)@ == old(self)@,
            old(self)@.active ==> r is Some && old(self)@.ended_after(r.unwrap(), final(self)@),
            old(self)@.active && !old(self)@.timed ==> duration_as_nanos(r.unwrap()) == 0,
    {
        if !self.active {
            return None;
        }
        let duration = match &self.activated_at {
            Some(i) => i.elapsed(),
            None => duration_from_micros(0),
        };
        self.deactivate_after(duration)
    }

    /// Whether the fermata is currently active.
    pub fn is_active(&self) -> (r: bool)
        ensures
            r == self@.active,
    {
        self.active
    }

    /// Total accumulated pause duration across all activations.
    pub fn total_pause_duration(&self) -> (d: Duration)
        ensures
            duration_as_nanos(d) == self@.total_us * 1000,
    {
        duration_from_micros(self.total_pause_duration_us)
    }

    /// Duration of the most recent pause.
    pub fn last_pause_duration(&self) -> (d: Duration)
        ensures
            duration_as_nanos(d) == self@.last_us * 1000,
    {
        duration_from_micros(self.current_pause_duration_us)
    }

    /// Get current pause duration if active, or last pause duration.
    ///
    /// While a timed pause runs this is the time since activation, read
    /// from the clock.
    pub fn current_duration(&self) -> (d: Duration)
        ensures
            self@.wf() && !self@.active ==> duration_as_nanos(d) == self@.last_us * 1000,
            !self@.timed ==> duration_as_nanos(d) == self@.last_us * 1000,
    {
        if let Some(instant) = &self.activated_at {
            instant.elapsed()
        } else {
            self.last_pause_duration()
        }
    }

    /// Reset all fermata state.
    pub fn reset(&mut self)
        ensures
            final(self)@ == (FermataView { active: false, timed: false, total_us: 0, last_us: 0, ended: false }),
    {
        self.active = false;
        self.total_pause_duration_us = 0;
        self.current_pause_duration_us = 0;
        self.paused_before = false;
        self.activated_at = None;
    }

    /// Returns true if there has been any pause (one that ended since the
    /// fermata was made or last reset, however short).
    pub fn has_paused(&self) -> (r: bool)
        ensures
            r == self@.ended,
    {
        self.paused_before
    }
}

/// A pause that is started and then ended after `d` adds `d` (in whole
/// microseconds, where that fits) to the total pause, becomes the last pause, and leaves
/// the fermata inactive; starting it again is possible.
pub proof fn lemma_pause_accumulates(
    before: FermataView,
    paused: FermataView,
    after: FermataView,
    d: Duration,
)
    requires
        !before.active,
        before.activated(paused),
        paused.ended_after(d, after),
        before.total_us + pause_us(d) <= u64::MAX,
    ensures
        !after.active,
        after.total_us == before.total_us + pause_us(d),
        after.last_us == pause_us(d),
        after.activated(FermataView { active: true, timed: true, ..after }),
{
}

/// The sum of pauses of the given durations, each in whole microseconds.
pub open spec fn total_of(ds: Seq<Duration>) -> int
    decreases ds.len(),
{
    if ds.len() == 0 {
        0
    } else {
        total_of(ds.drop_last()) + pause_us(ds.last())
    }
}

/// Each pause is counted once: after a run of whole pauses of durations
/// `ds` (with no reset), the total pause has grown by the sum of their
/// lengths in whole microseconds (where that sum fits the total), and after at least one pause the fermata
/// has paused and is inactive.
pub proof fn lemma_pauses_accumulate(states: Seq<FermataView>, ds: Seq<Duration>)
    requires
        states.len() == ds.len() + 1,
        states[0].total_us + total_of(ds) <= u64::MAX,
        forall|i: int| 0 <= i < ds.len() ==> #[trigger] states[i].pause_cycle(ds[i], states[i + 1]),
    ensures
        states.last().total_us == states[0].total_us + total_of(ds),
        ds.len() > 0 ==> states.last().ended && !states.last().active,
    decreases ds.len(),
{
    if ds.len() > 0 {
        let k: int = ds.len() - 1;
        let front = states.drop_last();
        let early = ds.drop_last();
        assert forall|i: int| 0 <= i < early.len() implies #[trigger] front[i].pause_cycle(
            early[i],
            front[i + 1],
        ) by {
            assert(front[i] == states[i] && front[i + 1] == states[i + 1] && early[i] == ds[i]);
            assert(states[i].pause_cycle(ds[i], states[i + 1]));
        }
        lemma_pauses_accumulate(front, early);
        assert(states[k].pause_cycle(ds[k], states[k + 1]));
        assert(front.last() == states[k]);
    }
}

} // verus!
