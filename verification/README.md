# fleet-midi-pulse

Heartbeat-driven timing layer for the fleet-midi ecosystem: BPM, tick
counting, swing quantization, tempo ramps, fermata and drift-corrected clock
timing.

## Layout

- `src/` — the library, with proved contracts:
  - `time.rs` — `Duration` and `Instant` as `std::time` provides them
    (durations are modelled by their length in nanoseconds);
  - `clock.rs` — `Clock`: drift measurement, forced and paid-back
    corrections, statistics;
  - `fermata.rs` — `Fermata`: pause/resume with duration tracking;
  - `subscriber.rs` — `SubscriberManager` and `PulseReceiver`: broadcast
    over `std::sync::mpsc` channels, dropping disconnected subscribers;
  - `tempo.rs` — `TempoMap`: control points kept sorted by tick, and the
    steady tempo or the bracketing ramp at any tick;
  - `pulse.rs` — `Pulse`: tick counter, beat/bar position, lifecycle
    (start, stop, pause, resume, advance), paced by a tick interval.
- `app/` — the crate users build on: the parts that compute with real
  numbers (BPM, phase, swing ratio, ramp curves, tick duration), the
  `TickEvent`, `SwingConfig` and `SwingQuantizer` types, the BPM-driven
  `Pulse`, the `thiserror` error type and `serde` records of the library's
  types.
- `tests/` — tests of the library.
