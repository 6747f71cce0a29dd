use fleet_midi_pulse::event::DEFAULT_TICKS_PER_BEAT;
use fleet_midi_pulse::pulse::{Pulse, PulseState, TickPosition};
use fleet_midi_pulse::PulseError;
use std::time::Duration;

/// The tick interval of 120 BPM at 24 ticks per beat.
fn interval_120() -> Duration {
    Duration::from_micros(20833)
}

fn pulse_120(ticks_per_beat: u32) -> Pulse {
    Pulse::new(interval_120(), ticks_per_beat)
}

fn advance(p: &mut Pulse) -> Option<TickPosition> {
    p.advance()
}

fn advance_ticks(p: &mut Pulse, n: u32) -> Vec<TickPosition> {
    let mut events = Vec::new();
    for _ in 0..n {
        if let Some(e) = advance(p) {
            events.push(e);
        }
    }
    events
}

fn phase(e: &TickPosition) -> f64 {
    e.tick_in_beat as f64 / e.ticks_per_beat as f64
}

#[test]
fn start_sets_running() {
    let mut p = pulse_120(24);
    p.start(interval_120()).unwrap();
    assert_eq!(p.state(), PulseState::Running);
}

#[test]
fn double_start_errors() {
    let mut p = pulse_120(24);
    p.start(interval_120()).unwrap();
    assert!(p.start(interval_120()).is_err());
}

#[test]
fn stop_sets_stopped() {
    let mut p = pulse_120(24);
    p.start(interval_120()).unwrap();
    p.stop().unwrap();
    assert_eq!(p.state(), PulseState::Stopped);
}

#[test]
fn double_stop_errors() {
    let mut p = pulse_120(24);
    assert!(p.stop().is_err());
}

#[test]
fn advance_not_running_returns_none() {
    let mut p = pulse_120(24);
    assert!(advance(&mut p).is_none());
}

#[test]
fn advance_increments_tick() {
    let mut p = pulse_120(24);
    p.start(interval_120()).unwrap();
    let e = advance(&mut p).unwrap();
    assert_eq!(e.tick, 0);
    assert_eq!(p.tick(), 1);
}

#[test]
fn advance_n() {
    let mut p = pulse_120(24);
    p.start(interval_120()).unwrap();
    let events = advance_ticks(&mut p, 5);
    assert_eq!(events.len(), 5);
    assert_eq!(p.tick(), 5);
}

#[test]
fn tick_event_beat_calculation() {
    let mut p = pulse_120(24);
    p.start(interval_120()).unwrap();
    let e = advance(&mut p).unwrap();
    assert_eq!(e.beat, 0);
    assert_eq!(e.bar, 0);
    assert_eq!(phase(&e), 0.0);

    advance_ticks(&mut p, 23);
    let e = advance(&mut p).unwrap();
    assert_eq!(e.tick, 24);
    assert_eq!(e.beat, 1);
    assert_eq!(e.bar, 0);
}

#[test]
fn tick_event_bar_calculation() {
    let mut p = pulse_120(24);
    p.set_beats_per_bar(4);
    p.start(interval_120()).unwrap();
    advance_ticks(&mut p, 96);
    let e = p.current_position();
    assert_eq!(e.tick, 96);
    assert_eq!(e.beat, 0);
    assert_eq!(e.bar, 1);
}

#[test]
fn set_ticks_per_beat() {
    let mut p = pulse_120(24);
    p.set_ticks_per_beat(48).unwrap();
    assert_eq!(p.ticks_per_beat(), 48);
}

#[test]
fn set_ticks_per_beat_zero_errors() {
    let mut p = pulse_120(24);
    assert!(p.set_ticks_per_beat(0).is_err());
}

#[test]
fn pause_and_resume() {
    let mut p = pulse_120(24);
    p.start(interval_120()).unwrap();
    assert!(p.pause());
    assert_eq!(p.state(), PulseState::Paused);
    assert!(p.resume());
    assert_eq!(p.state(), PulseState::Running);
}

#[test]
fn pause_not_running_fails() {
    let mut p = pulse_120(24);
    assert!(!p.pause());
}

#[test]
fn resume_not_paused_fails() {
    let mut p = pulse_120(24);
    p.start(interval_120()).unwrap();
    assert!(!p.resume());
}

#[test]
fn advance_while_paused_returns_none() {
    let mut p = pulse_120(24);
    p.start(interval_120()).unwrap();
    p.pause();
    assert!(advance(&mut p).is_none());
}

#[test]
fn subscribe_receives_events() {
    let mut p = pulse_120(24);
    let rx = p.subscribe();
    p.start(interval_120()).unwrap();
    advance(&mut p);
    let event = rx.try_recv().unwrap();
    assert_eq!(event.tick, 0);
}

#[test]
fn pulse_multiple_subscribers() {
    let mut p = pulse_120(24);
    let rx1 = p.subscribe();
    let rx2 = p.subscribe();
    p.start(interval_120()).unwrap();
    advance(&mut p);
    assert_eq!(rx1.try_recv().unwrap().tick, 0);
    assert_eq!(rx2.try_recv().unwrap().tick, 0);
}

#[test]
fn current_event_no_advance() {
    let mut p = pulse_120(24);
    p.start(interval_120()).unwrap();
    let e = p.current_position();
    assert_eq!(e.tick, 0);
    assert_eq!(p.tick(), 0);
}

#[test]
fn stop_resets_state() {
    let mut p = pulse_120(24);
    p.start(interval_120()).unwrap();
    advance_ticks(&mut p, 10);
    p.stop().unwrap();
    assert_eq!(p.state(), PulseState::Stopped);
}

#[test]
fn restart_resets_tick() {
    let mut p = pulse_120(24);
    p.start(interval_120()).unwrap();
    advance_ticks(&mut p, 10);
    p.stop().unwrap();
    p.start(interval_120()).unwrap();
    assert_eq!(p.tick(), 0);
}

#[test]
fn fermata_tracking() {
    let mut p = pulse_120(24);
    p.start(interval_120()).unwrap();
    p.pause();
    assert!(p.fermata().is_active());
    p.resume();
    assert!(!p.fermata().is_active());
}

#[test]
fn set_beats_per_bar() {
    let mut p = pulse_120(24);
    p.set_beats_per_bar(3);
    assert_eq!(p.beats_per_bar(), 3);
}

#[test]
fn set_beats_per_bar_minimum() {
    let mut p = pulse_120(24);
    p.set_beats_per_bar(0);
    assert_eq!(p.beats_per_bar(), 1);
}

#[test]
fn phase_calculation() {
    let mut p = pulse_120(24);
    p.start(interval_120()).unwrap();
    advance_ticks(&mut p, 12);
    let e = p.current_position();
    assert!((phase(&e) - 0.5).abs() < 0.001);
}

// ── Further cases ──

#[test]
fn new_pulse() {
    let p = pulse_120(DEFAULT_TICKS_PER_BEAT);
    assert_eq!(p.ticks_per_beat(), 24);
    assert_eq!(p.beats_per_bar(), 4);
    assert_eq!(p.tick(), 0);
    assert_eq!(p.state(), PulseState::Stopped);
    assert_eq!(p.subscriber_count(), 0);
}

#[test]
fn start_error_names_running_state() {
    let mut p = pulse_120(24);
    p.start(interval_120()).unwrap();
    match p.start(interval_120()) {
        Err(PulseError::InvalidState { state }) => assert_eq!(state, "running"),
        other => panic!("unexpected {:?}", other),
    }
}

#[test]
fn stop_error_names_stopped_state() {
    let mut p = pulse_120(24);
    match p.stop() {
        Err(PulseError::InvalidState { state }) => assert_eq!(state, "stopped"),
        other => panic!("unexpected {:?}", other),
    }
}

#[test]
fn zero_ticks_per_beat_is_rejected_with_value() {
    assert!(matches!(
        Pulse::validate_ticks_per_beat(0),
        Err(PulseError::InvalidTicksPerBeat { value: 0 })
    ));
    assert!(matches!(Pulse::validate_ticks_per_beat(96), Ok(96)));
}

#[test]
fn position_decomposes_tick() {
    let mut p = pulse_120(24);
    p.set_beats_per_bar(3);
    p.start(interval_120()).unwrap();
    advance_ticks(&mut p, 200);
    let e = p.current_position();
    // 200 = 2 bars of 72 ticks + 2 beats of 24 + 8
    assert_eq!(
        e,
        TickPosition { tick: 200, beat: 2, bar: 2, tick_in_beat: 8, ticks_per_beat: 24 }
    );
    assert_eq!(e.bar * 72 + e.beat as u64 * 24 + e.tick_in_beat as u64, e.tick);
}

#[test]
fn pause_and_resume_keep_the_tick() {
    let mut p = pulse_120(24);
    p.start(interval_120()).unwrap();
    advance_ticks(&mut p, 7);
    assert!(p.pause());
    assert!(advance(&mut p).is_none());
    assert!(p.resume());
    assert_eq!(p.tick(), 7);
    assert_eq!(advance(&mut p).unwrap().tick, 7);
}

#[test]
fn pause_after_stop_while_paused_keeps_fermata() {
    let mut p = pulse_120(24);
    p.start(interval_120()).unwrap();
    assert!(p.pause());
    p.stop().unwrap();
    p.start(interval_120()).unwrap();
    // the fermata is still active from the first pause
    assert!(!p.pause());
    assert_eq!(p.state(), PulseState::Paused);
}

#[test]
fn next_tick_duration_without_drift_is_interval() {
    let mut p = pulse_120(24);
    assert_eq!(p.next_tick_duration(), interval_120());
    assert_eq!(p.clock_stats().corrections, 0);
}

#[test]
fn set_interval_paces_the_clock() {
    let mut p = pulse_120(24);
    p.set_interval(Duration::from_micros(10_000));
    assert_eq!(p.next_tick_duration(), Duration::from_micros(10_000));
}

#[test]
fn advance_returns_the_position_it_broadcasts() {
    let mut p = pulse_120(24);
    let rx = p.subscribe();
    p.start(interval_120()).unwrap();
    advance_ticks(&mut p, 30);
    let before = p.current_position();
    let e = advance(&mut p).unwrap();
    assert_eq!(e, before);
    assert_eq!(e, TickPosition { tick: 30, beat: 1, bar: 0, tick_in_beat: 6, ticks_per_beat: 24 });
    let mut last = None;
    while let Ok(x) = rx.try_recv() {
        last = Some(x);
    }
    assert_eq!(last, Some(e));
    assert_eq!(p.tick(), 31);
}

#[test]
fn resume_ends_the_fermata() {
    let mut p = pulse_120(24);
    p.start(interval_120()).unwrap();
    assert!(p.pause());
    assert!(p.fermata().is_active());
    assert!(p.resume());
    assert!(!p.fermata().is_active());
    assert!(p.fermata().has_paused());
}
