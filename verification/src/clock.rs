//! Clock readings. The caller reads a monotonic clock and hands the library
//! nanoseconds; configured intervals are in seconds.

use vstd::prelude::*;

verus! {

/// Nanoseconds in a second.
pub const NANOS_PER_SEC: u64 = 1_000_000_000;

/// Whole seconds from the clock reading `since` to the reading `now`; zero
/// when `now` is the earlier one.
pub open spec fn elapsed_secs(since: u64, now: u64) -> int {
    if now >= since {
        (now - since) / (NANOS_PER_SEC as int)
    } else {
        0
    }
}

/// Computes [`elapsed_secs`].
pub fn whole_seconds_between(since: u64, now: u64) -> (secs: u64)
    ensures
        secs == elapsed_secs(since, now),
{
    if now >= since {
        (now - since) / NANOS_PER_SEC
    } else {
        0
    }
}

} // verus!
