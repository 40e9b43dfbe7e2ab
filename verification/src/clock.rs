//! The system clock.

use crate::time::Instant;
use vstd::prelude::*;

verus! {

/// The present moment, read from the system clock by `chrono::Utc::now`.
///
/// Not proved, but taken from how `chrono` builds the value: it counts the
/// seconds and the nanoseconds of the running second since the epoch, and
/// makes a date of them only when the day they fall on, counted from the
/// year 1, fits in an `i32`. So the nanoseconds stay below one second and the
/// seconds within [`crate::time::CLOCK_RANGE_SECS`] of the epoch. Nothing is
/// said of where in that range the reading lies: two readings may be equal,
/// and the later one may show the earlier time. Where the system clock
/// stands before the epoch, or beyond the years that `chrono` knows, the
/// call panics.
#[verifier::external_body]
pub(crate) fn utc_now() -> (r: Instant)
    ensures
        Instant::in_clock_range(r@),
{
    let t = chrono::Utc::now();
    Instant { secs: t.timestamp(), nanos: t.timestamp_subsec_nanos() }
}

} // verus!
