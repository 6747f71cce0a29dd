//! Heartbeat-driven timing layer: tick counting, lifecycle, drift-corrected
//! clock, fermata tracking and tempo-map ordering, with verified contracts.

use vstd::prelude::*;

pub mod clock;
pub mod event;
pub mod fermata;
pub mod pulse;
pub mod subscriber;
pub mod tempo;
pub mod time;

pub use clock::{Clock, DriftStats};
pub use fermata::Fermata;
pub use pulse::{Pulse, PulseState};
pub use subscriber::{PulseReceiver, SubscriberManager};
pub use tempo::{TempoMap, TempoPoint};

verus! {

/// Errors of the timing layer.
#[derive(Debug)]
pub enum PulseError {
    /// Ticks per beat must be positive.
    InvalidTicksPerBeat { value: u32 },
    /// The pulse is already in the named state.
    InvalidState { state: String },
    /// Tempo ramp interpolation failed at the tick.
    RampInterpolationFailed { tick: u64 },
    /// The channel is closed.
    ChannelClosed,
}

} // verus!
