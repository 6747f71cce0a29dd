//! Constants shared by the timing layer.

use vstd::prelude::*;

verus! {

/// Beats per bar (time signature numerator).
pub const DEFAULT_BEATS_PER_BAR: u32 = 4;

/// Default ticks per beat.
pub const DEFAULT_TICKS_PER_BEAT: u32 = 24;

} // verus!
