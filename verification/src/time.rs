use vstd::prelude::*;

verus! {

/// Time measured in milliseconds.
pub type Time = i64;

/// Number of time units in one second.
pub const TIME_IN_FLOAT_TIME: Time = 1000;

/// Grace period after a waypoint during which a rhythm can still be hit (0.1s).
pub const COYOTE_TIME: Time = 100;

/// Grace period before a waypoint during which a rhythm can already be hit (0.1s).
pub const BUFFER_TIME: Time = 100;

/// Largest magnitude of a time value that the timing computations accept,
/// so that sums and differences of a few such values stay inside `i64`.
pub const MAX_TIME: Time = 0x0800_0000_0000_0000;

/// Whether an integer lies in the accepted time range.
pub open spec fn time_in_range(t: int) -> bool {
    -MAX_TIME <= t <= MAX_TIME
}

} // verus!
