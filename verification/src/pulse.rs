//! Pulse — the core timing struct: tick counter, beat and bar position,
//! lifecycle, fermata, subscribers and clock.
//!
//! The pulse is paced by its clock's tick interval; turning a tempo in BPM
//! into that interval, and into the phase of a tick event, is arithmetic on
//! real numbers that the embedding does. The pulse broadcasts the position
//! of each tick, from which the phase follows.

use crate::clock::{Clock, ClockView, DriftStats, DEFAULT_MAX_DRIFT_US};
use crate::event::DEFAULT_BEATS_PER_BAR;
use crate::fermata::{Fermata, FermataView};
use crate::subscriber::{delivered_to, PulseReceiver, SubscriberManager};
use crate::PulseError;
use std::sync::mpsc::Sender;
use std::time::Duration;
use vstd::arithmetic::div_mod::{
    lemma_breakdown, lemma_div_pos_is_pos, lemma_fundamental_div_mod, lemma_mod_bound,
};
use vstd::arithmetic::mul::{lemma_mul_strictly_positive, lemma_mul_upper_bound};
use vstd::prelude::*;

verus! {

/// Running state of the pulse.
#[derive(Debug, Clone, Copy, PartialEq, Eq, Structural)]
pub enum PulseState {
    Stopped,
    Running,
    Paused,
}

/// Where a tick falls: its beat within the bar, its bar, and its offset
/// within the beat (the phase of the beat is `tick_in_beat /
/// ticks_per_beat`).
#[derive(Debug, Clone, Copy, PartialEq, Eq, Structural)]
pub struct TickPosition {
    /// Global tick counter.
    pub tick: u64,
    /// Current beat within the bar (0-indexed).
    pub beat: u32,
    /// Current bar number (0-indexed).
    pub bar: u64,
    /// Tick within the current beat.
    pub tick_in_beat: u32,
    /// Ticks per beat at this position.
    pub ticks_per_beat: u32,
}

/// The position of `tick` with `ticks_per_beat` ticks to a beat and
/// `beats_per_bar` beats to a bar.
pub open spec fn position_at(tick: u64, ticks_per_beat: u32, beats_per_bar: u32) -> TickPosition {
    let t: int = tick as int;
    let a: int = ticks_per_beat as int;
    let ticks_per_bar: int = a * beats_per_bar;
    TickPosition {
        tick,
        beat: ((t % ticks_per_bar) / a) as u32,
        bar: (t / ticks_per_bar) as u64,
        tick_in_beat: (t % a) as u32,
        ticks_per_beat,
    }
}

/// A position decomposes its tick exactly: `tick == (bar * beats_per_bar +
/// beat) * ticks_per_beat + tick_in_beat`, with the beat within the bar and
/// the offset within the beat.
pub proof fn lemma_position_decomposes(tick: u64, ticks_per_beat: u32, beats_per_bar: u32)
    requires
        ticks_per_beat > 0,
        beats_per_bar > 0,
    ensures
        ({
            let p = position_at(tick, ticks_per_beat, beats_per_bar);
            &&& p.beat < beats_per_bar
            &&& p.tick_in_beat < ticks_per_beat
            &&& tick == p.bar * (ticks_per_beat * beats_per_bar) + p.beat * ticks_per_beat
                + p.tick_in_beat
        }),
{
    let t: int = tick as int;
    let a: int = ticks_per_beat as int;
    let b: int = beats_per_bar as int;
    lemma_mul_strictly_positive(a, b);
    lemma_fundamental_div_mod(t, a * b);
    lemma_mod_bound(t, a * b);
    lemma_mod_bound(t, a);
    lemma_breakdown(t, a, b);
    lemma_div_pos_is_pos(t, a * b);
    lemma_div_pos_is_pos(t, a);
    lemma_mod_bound(t / a, b);
    let r: int = t % (a * b);
    lemma_fundamental_div_mod(r, a);
    lemma_mod_bound(r, a);
    lemma_div_pos_is_pos(r, a);
    // r == a * ((t / a) % b) + t % a, so r / a == (t / a) % b and r % a == t % a
    assert(a * ((t / a) % b) == ((t / a) % b) * a) by {
        vstd::arithmetic::mul::lemma_mul_is_commutative(a, (t / a) % b);
    }
    vstd::arithmetic::div_mod::lemma_fundamental_div_mod_converse(r, a, (t / a) % b, t % a);
    assert(r / a < b);
    assert(t / (a * b) <= t) by {
        vstd::arithmetic::div_mod::lemma_div_is_ordered_by_denominator(t, 1, a * b);
    }
    assert(r / a * a == a * (r / a)) by {
        vstd::arithmetic::mul::lemma_mul_is_commutative(r / a, a);
    }
    assert(t / (a * b) * (a * b) == (a * b) * (t / (a * b))) by {
        vstd::arithmetic::mul::lemma_mul_is_commutative(t / (a * b), a * b);
    }
}

/// The core timing struct that drives timing for the fleet-midi ecosystem.
pub struct Pulse {
    /// Ticks per beat (resolution).
    ticks_per_beat: u32,
    /// Beats per bar (time signature).
    beats_per_bar: u32,
    /// Global tick counter.
    tick: u64,
    /// Current state.
    state: PulseState,
    /// Fermata (pause/resume).
    fermata: Fermata,
    /// Subscriber manager.
    subscribers: SubscriberManager<TickPosition>,
    /// Internal clock.
    clock: Clock,
}

/// The abstract state of a pulse.
pub struct PulseView {
    pub ticks_per_beat: u32,
    pub beats_per_bar: u32,
    pub tick: u64,
    pub state: PulseState,
    pub fermata: FermataView,
    pub subscribers: Seq<Sender<TickPosition>>,
    /// The tick positions broadcast to the subscribers so far, in order.
    pub broadcasts: Seq<TickPosition>,
    pub clock: ClockView,
}

impl View for Pulse {
    type V = PulseView;

    closed spec fn view(&self) -> PulseView {
        PulseView {
            ticks_per_beat: self.ticks_per_beat,
            beats_per_bar: self.beats_per_bar,
            tick: self.tick,
            state: self.state,
            fermata: self.fermata@,
            subscribers: self.subscribers@,
            broadcasts: self.subscribers.broadcasts(),
            clock: self.clock@,
        }
    }
}

/// The view of a freshly made clock with the given interval, started: its
/// first reading is its reference.
pub open spec fn fresh_started_clock(interval: Duration) -> ClockView {
    ClockView {
        interval,
        started: true,
        drift_us: 0,
        corrections: 0,
        correction_sum_us: 0,
        max_drift_us: DEFAULT_MAX_DRIFT_US,
        readings: 1,
        reference: 1,
    }
}

impl PulseView {
    /// The pulse is well formed: a bar has at least one beat, a paused
    /// pulse holds a running fermata, and the fermata is well formed.
    pub open spec fn wf(self) -> bool {
        &&& self.beats_per_bar >= 1
        &&& self.state == PulseState::Paused ==> self.fermata.active
        &&& self.fermata.wf()
    }

    /// The position of the current tick.
    pub open spec fn position(self) -> TickPosition {
        position_at(self.tick, self.ticks_per_beat, self.beats_per_bar)
    }

    /// `next` is `self` started: running from tick 0 on a fresh clock.
    pub open spec fn started(self, interval: Duration, next: PulseView) -> bool {
        next == PulseView {
            state: PulseState::Running,
            tick: 0,
            clock: fresh_started_clock(interval),
            ..self
        }
    }

    /// `next` is `self` stopped: the tick stays, the clock is reset.
    pub open spec fn stopped(self, next: PulseView) -> bool {
        next == PulseView {
            state: PulseState::Stopped,
            clock: ClockView {
                started: false,
                drift_us: 0,
                corrections: 0,
                correction_sum_us: 0,
                ..self.clock
            },
            ..self
        }
    }

    /// `next` is `self` paused: the fermata is activated (if it was not).
    pub open spec fn paused(self, next: PulseView) -> bool {
        next == PulseView {
            state: PulseState::Paused,
            fermata: if self.fermata.active {
                self.fermata
            } else {
                FermataView { active: true, timed: true, ..self.fermata }
            },
            ..self
        }
    }

    /// `next` may be `self` resumed: the fermata is deactivated, the clock
    /// takes a new reference time, and the pulse runs again from the same
    /// tick.
    pub open spec fn resumed(self, next: PulseView) -> bool {
        &&& self.fermata.deactivated(next.fermata)
        &&& self.clock.took_reading(next.clock)
        &&& next == PulseView {
            state: PulseState::Running,
            fermata: next.fermata,
            clock: next.clock,
            ..self
        }
    }

    /// `next` may be `self` advanced by one tick: the position of the tick
    /// was broadcast to the subscribers, those still connected remain, the clock measured the tick, and the
    /// tick counter moved on by one.
    pub open spec fn advanced(self, next: PulseView) -> bool {
        &&& delivered_to(self.subscribers, next.subscribers)
        &&& self.clock.ticked(next.clock)
        &&& next == PulseView {
            tick: (self.tick + 1) as u64,
            subscribers: next.subscribers,
            broadcasts: self.broadcasts.push(self.position()),
            clock: next.clock,
            ..self
        }
    }
}

impl Pulse {
    /// Create a new pulse ticking at `interval`, with the given
    /// ticks-per-beat.
    pub fn new(interval: Duration, ticks_per_beat: u32) -> (p: Self)
        ensures
            p@.wf(),
            p@.ticks_per_beat == ticks_per_beat,
            p@.beats_per_bar == DEFAULT_BEATS_PER_BAR,
            p@.tick == 0,
            p@.state == PulseState::Stopped,
            p@.fermata == (FermataView {
                active: false,
                timed: false,
                total_us: 0,
                last_us: 0,
                ended: false,
            }),
            p@.subscribers == Seq::<Sender<TickPosition>>::empty(),
            p@.broadcasts == Seq::<TickPosition>::empty(),
            p@.clock == (ClockView {
                started: false,
                readings: 0,
                reference: 0,
                ..fresh_started_clock(interval)
            }),
    {
        Self {
            ticks_per_beat,
            beats_per_bar: DEFAULT_BEATS_PER_BAR,
            tick: 0,
            state: PulseState::Stopped,
            fermata: Fermata::new(),
            subscribers: SubscriberManager::new(),
            clock: Clock::new(interval),
        }
    }

    /// Validate ticks_per_beat is positive.
    pub fn validate_ticks_per_beat(ticks: u32) -> (r: Result<u32, PulseError>)
        ensures
            ticks == 0 ==> r == Err::<u32, PulseError>(PulseError::InvalidTicksPerBeat { value: 0 }),
            ticks != 0 ==> r == Ok::<u32, PulseError>(ticks),
    {
        if ticks == 0 {
            return Err(PulseError::InvalidTicksPerBeat { value: 0 });
        }
        Ok(ticks)
    }

    // ── Lifecycle ──
    /// Start the pulse on a fresh clock ticking at `interval`. Returns an
    /// error if already running.
    pub fn start(&mut self, interval: Duration) -> (r: Result<(), PulseError>)
        requires
            old(self)@.wf(),
        ensures
            final(self)@.wf(),
            old(self)@.state == PulseState::Running ==> final(self)@ == old(self)@ && (r matches Err(
                PulseError::InvalidState { state },
            ) && state@ == "running"@),
            old(self)@.state != PulseState::Running ==> r is Ok && old(self)@.started(
                interval,
                final(self)@,
            ),
    {
        if self.state == PulseState::Running {
            return Err(PulseError::InvalidState { state: "running".to_owned() });
        }
        self.state = PulseState::Running;
        self.tick = 0;
        self.clock = Clock::new(interval);
        self.clock.start();
        Ok(())
    }

    /// Stop the pulse. Returns an error if already stopped.
    pub fn stop(&mut self) -> (r: Result<(), PulseError>)
        requires
            old(self)@.wf(),
        ensures
            final(self)@.wf(),
            old(self)@.state == PulseState::Stopped ==> final(self)@ == old(self)@ && (r matches Err(
                PulseError::InvalidState { state },
            ) && state@ == "stopped"@),
            old(self)@.state != PulseState::Stopped ==> r is Ok && old(self)@.stopped(final(self)@),
    {
        if self.state == PulseState::Stopped {
            return Err(PulseError::InvalidState { state: "stopped".to_owned() });
        }
        self.state = PulseState::Stopped;
        self.clock.reset();
        Ok(())
    }

    /// Pause the pulse via fermata. Returns false, changing nothing, unless
    /// running; else whether the fermata was newly activated.
    pub fn pause(&mut self) -> (r: bool)
        requires
            old(self)@.wf(),
        ensures
            final(self)@.wf(),
            old(self)@.state != PulseState::Running ==> !r && final(self)@ == old(self)@,
            old(self)@.state == PulseState::Running ==> r == !old(self)@.fermata.active && old(
                self,
            )@.paused(final(self)@),
    {
        if self.state != PulseState::Running {
            return false;
        }
        self.state = PulseState::Paused;
        self.fermata.activate()
    }

    /// Resume from fermata pause. Returns false, changing nothing, unless
    /// paused.
    pub fn resume(&mut self) -> (r: bool)
        requires
            old(self)@.wf(),
        ensures
            final(self)@.wf(),
            r == (old(self)@.state == PulseState::Paused),
            !r ==> final(self)@ == old(self)@,
            r ==> old(self)@.resumed(final(self)@),
            r ==> !final(self)@.fermata.active && final(self)@.fermata.ended,
            r ==> final(self)@.clock.started && final(self)@.clock.reference == old(
                self,
            )@.clock.readings + 1,
    {
        if self.state != PulseState::Paused {
            return false;
        }
        let _ = self.fermata.deactivate();
        self.state = PulseState::Running;
        self.clock.start();  // restart clock to avoid drift from pause
        true
    }

    // ── Tick position ──
    /// The position of the current tick, without advancing.
    pub fn current_position(&self) -> (p: TickPosition)
        requires
            self@.wf(),
            self@.ticks_per_beat > 0,
        ensures
            p == self@.position(),
    {
        let tick: u64 = self.tick;
        let ticks_per_beat: u64 = self.ticks_per_beat as u64;
        proof {
            lemma_mul_upper_bound(
                self.ticks_per_beat as int,
                u32::MAX as int,
                self.beats_per_bar as int,
                u32::MAX as int,
            );
            lemma_mul_strictly_positive(self.ticks_per_beat as int, self.beats_per_bar as int);
            lemma_position_decomposes(tick, self.ticks_per_beat, self.beats_per_bar);
        }
        let ticks_per_bar: u64 = ticks_per_beat * self.beats_per_bar as u64;
        let bar: u64 = tick / ticks_per_bar;
        let beat: u32 = ((tick % ticks_per_bar) / ticks_per_beat) as u32;
        let tick_in_beat: u32 = (tick % ticks_per_beat) as u32;
        TickPosition { tick, beat, bar, tick_in_beat, ticks_per_beat: self.ticks_per_beat }
    }

    // ── Configuration ──
    /// Pace the pulse at a new tick interval.
    pub fn set_interval(&mut self, interval: Duration)
        requires
            old(self)@.wf(),
        ensures
            final(self)@ == (PulseView {
                clock: ClockView { interval, ..old(self)@.clock },
                ..old(self)@
            }),
    {
        self.clock.set_interval(interval);
    }

    /// Set ticks per beat. Fails, changing nothing, for zero.
    pub fn set_ticks_per_beat(&mut self, ticks: u32) -> (r: Result<(), PulseError>)
        requires
            old(self)@.wf(),
        ensures
            ticks == 0 ==> r == Err::<(), PulseError>(PulseError::InvalidTicksPerBeat { value: 0 })
                && final(self)@ == old(self)@,
            ticks != 0 ==> r is Ok && final(self)@ == (PulseView {
                ticks_per_beat: ticks,
                ..old(self)@
            }),
    {
        let ticks: u32 = Self::validate_ticks_per_beat(ticks)?;
        self.ticks_per_beat = ticks;
        Ok(())
    }

    /// Get ticks per beat.
    pub fn ticks_per_beat(&self) -> (r: u32)
        ensures
            r == self@.ticks_per_beat,
    {
        self.ticks_per_beat
    }

    /// Set beats per bar (time signature); at least one.
    pub fn set_beats_per_bar(&mut self, beats: u32)
        ensures
            final(self)@ == (PulseView {
                beats_per_bar: if beats >= 1 {
                    beats
                } else {
                    1
                },
                ..old(self)@
            }),
    {
        self.beats_per_bar = if beats >= 1 {
            beats
        } else {
            1
        };
    }

    /// Get beats per bar.
    pub fn beats_per_bar(&self) -> (r: u32)
        ensures
            r == self@.beats_per_bar,
    {
        self.beats_per_bar
    }

    /// Get the current tick counter.
    pub fn tick(&self) -> (r: u64)
        ensures
            r == self@.tick,
    {
        self.tick
    }

    /// Get the current state.
    pub fn state(&self) -> (r: PulseState)
        ensures
            r == self@.state,
    {
        self.state
    }

    /// Access the fermata.
    pub fn fermata(&self) -> (f: &Fermata)
        ensures
            f@ == self@.fermata,
    {
        &self.fermata
    }

    /// Subscribe to tick events.
    pub fn subscribe(&mut self) -> (r: PulseReceiver<TickPosition>)
        requires
            old(self)@.wf(),
        ensures
            final(self)@.subscribers.len() == old(self)@.subscribers.len() + 1,
            final(self)@.subscribers.drop_last() == old(self)@.subscribers,
            final(self)@ == (PulseView { subscribers: final(self)@.subscribers, ..old(self)@ }),
    {
        self.subscribers.subscribe()
    }

    /// Get the number of subscribers.
    pub fn subscriber_count(&self) -> (n: usize)
        ensures
            n == self@.subscribers.len(),
    {
        self.subscribers.subscriber_count()
    }

    /// Get the next tick duration (with drift correction); see
    /// `Clock::next_tick_duration`.
    pub fn next_tick_duration(&mut self) -> (d: Duration)
        requires
            old(self)@.wf(),
            old(self)@.clock.can_correct(),
        ensures
            final(self)@.wf(),
            old(self)@.clock.corrected(d, final(self)@.clock),
            final(self)@ == (PulseView { clock: final(self)@.clock, ..old(self)@ }),
    {
        self.clock.next_tick_duration()
    }

    /// The clock that paces the pulse, for reading its drift counters.
    pub fn clock(&self) -> (c: &Clock)
        ensures
            c@ == self@.clock,
    {
        &self.clock
    }

    /// Get drift stats from the clock.
    pub fn clock_stats(&self) -> (s: DriftStats)
        ensures
            s == self@.clock.drift_stats(),
    {
        self.clock.stats()
    }
}

impl Pulse {
    // ── Tick Advancement ──
    /// Advance by one tick: broadcast the position of the current tick to
    /// the subscribers and return it, then move the tick on. Returns None,
    /// changing nothing, if not running.
    pub fn advance(&mut self) -> (r: Option<TickPosition>)
        requires
            old(self)@.wf(),
            old(self)@.state == PulseState::Running ==> old(self)@.tick < u64::MAX,
            old(self)@.state == PulseState::Running ==> old(self)@.ticks_per_beat > 0,
        ensures
            final(self)@.wf(),
            old(self)@.state != PulseState::Running ==> r is None && final(self)@ == old(self)@,
            old(self)@.state == PulseState::Running ==> r == Some(old(self)@.position()) && old(
                self,
            )@.advanced(final(self)@),
            r matches Some(e) ==> final(self)@.broadcasts == old(self)@.broadcasts.push(e),
    {
        if self.state != PulseState::Running {
            return None;
        }
        let event = self.current_position();
        self.subscribers.broadcast(event);
        self.clock.tick();
        self.tick = self.tick + 1;
        Some(event)
    }
}

/// A pause followed by a resume is a hold, not a delay: the pulse runs
/// again from the tick where it stopped, with the same resolution, time
/// signature and subscribers, and its clock takes as its reference a new
/// reading, later than every reading taken before the pause, so the next
/// tick measures only the time since the resume. The fermata has ended.
pub proof fn lemma_pause_resume_holds_position(
    before: PulseView,
    held: PulseView,
    after: PulseView,
)
    requires
        before.state == PulseState::Running,
        before.paused(held),
        held.resumed(after),
    ensures
        after.state == PulseState::Running,
        after.tick == before.tick,
        after.ticks_per_beat == before.ticks_per_beat,
        after.beats_per_bar == before.beats_per_bar,
        after.subscribers == before.subscribers,
        after.position() == before.position(),
        before.clock.took_reading(after.clock),
        after.clock.reference > before.clock.readings,
        !after.fermata.active,
        after.fermata.ended,
{
}

/// Advancing a running pulse moves its tick on by exactly one and keeps
/// it running; starting again brings the tick back to zero.
pub proof fn lemma_advance_then_restart(
    running: PulseView,
    advanced: PulseView,
    stopped: PulseView,
    restarted: PulseView,
    interval: Duration,
)
    requires
        running.state == PulseState::Running,
        running.tick < u64::MAX,
        running.advanced(advanced),
        advanced.stopped(stopped),
        stopped.started(interval, restarted),
    ensures
        advanced.tick == running.tick + 1,
        advanced.state == PulseState::Running,
        stopped.tick == advanced.tick,
        restarted.tick == 0,
        restarted.state == PulseState::Running,
        restarted.clock == fresh_started_clock(interval),
{
}

/// Every advance broadcasts the position of the tick it advances from: in
/// a run of advances, the broadcasts grow by one position per advance, in
/// tick order, each computed with the pulse's own resolution and time
/// signature; those broadcast before stay as they were.
pub proof fn lemma_advances_broadcast_successive_positions(states: Seq<PulseView>)
    requires
        states.len() >= 1,
        forall|i: int| 0 <= i < states.len() - 1 ==> #[trigger] states[i].advanced(states[i + 1]),
        states[0].tick + states.len() - 1 <= u64::MAX,
    ensures
        ({
            let n: int = states.len() - 1;
            let first = states[0];
            let last = states[n];
            &&& last.tick == first.tick + n
            &&& last.ticks_per_beat == first.ticks_per_beat
            &&& last.beats_per_bar == first.beats_per_bar
            &&& last.broadcasts.len() == first.broadcasts.len() + n
            &&& last.broadcasts.subrange(0, first.broadcasts.len() as int) == first.broadcasts
            &&& forall|k: int|
                0 <= k < n ==> #[trigger] last.broadcasts[first.broadcasts.len() + k]
                    == position_at(
                    (first.tick + k) as u64,
                    first.ticks_per_beat,
                    first.beats_per_bar,
                )
        }),
    decreases states.len(),
{
    if states.len() > 1 {
        let front = states.drop_last();
        assert forall|i: int| 0 <= i < front.len() - 1 implies #[trigger] front[i].advanced(
            front[i + 1],
        ) by {
            assert(front[i] == states[i] && front[i + 1] == states[i + 1]);
            assert(states[i].advanced(states[i + 1]));
        }
        lemma_advances_broadcast_successive_positions(front);
        let n: int = states.len() - 1;
        let prev = states[n - 1];
        assert(front[n - 1] == prev);
        assert(states[n - 1].advanced(states[(n - 1) + 1]));
        assert(prev.advanced(states[n]));
        let first = states[0];
        let last = states[n];
        assert(last.broadcasts == prev.broadcasts.push(prev.position()));
        assert forall|k: int|
            0 <= k < n implies #[trigger] last.broadcasts[first.broadcasts.len() + k] == position_at(
                (first.tick + k) as u64,
                first.ticks_per_beat,
                first.beats_per_bar,
            ) by {
            if k < n - 1 {
                assert(last.broadcasts[first.broadcasts.len() + k] == prev.broadcasts[
                    first.broadcasts.len() + k]);
            }
        }
        assert(last.broadcasts.subrange(0, first.broadcasts.len() as int)
            =~= prev.broadcasts.subrange(0, first.broadcasts.len() as int));
    }
}

} // verus!
