//! Units shared by every pattern.
//!
//! Instants are nanoseconds on a monotonic clock. Positions are billionths of
//! the window width and angles are billionths of a turn, so that an elapsed
//! time in nanoseconds multiplied by a rate in hertz is already a count of
//! cycles in billionths.

use vstd::prelude::*;

verus! {

/// Nanoseconds in one second.
pub const NANOS_PER_SECOND: u64 = 1_000_000_000;

/// One whole (a full window width, a full turn) in billionths.
pub const WHOLE: u64 = 1_000_000_000;

/// Time that has passed at `now` since `start`; zero while `now` is not yet
/// past `start`.
pub open spec fn elapsed_between(start: int, now: int) -> int {
    if now >= start {
        now - start
    } else {
        0
    }
}

/// Nanoseconds from `start` to `now`, saturating at zero.
pub fn elapsed(start: u64, now: u64) -> (e: u64)
    ensures
        e == elapsed_between(start as int, now as int),
{
    if now >= start {
        now - start
    } else {
        0
    }
}

} // verus!
