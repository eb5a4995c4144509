//! Due-time arithmetic: when the next packet of a flow may leave, and how
//! long the dispatcher has to wait for an instant that has not yet come.
//!
//! All instants and durations are nanosecond counts. The one policy here is
//! drift correction: a dispatch that ran late by less than twice the
//! interval keeps the strict periodic cadence (`due_time + interval`), while
//! a dispatch delayed by twice the interval or more restarts the cadence at
//! `now + interval`, so that a stall is never followed by a burst of
//! catch-up sends.

use vstd::prelude::*;

verus! {

/// How late a dispatch was: the time from the packet's due instant to `now`,
/// and zero when the packet went out early or on time.
pub open spec fn spec_elapsed(due_time: int, now: int) -> int {
    if now >= due_time {
        now - due_time
    } else {
        0
    }
}

/// The due time of a flow's next packet, given the due time of the packet
/// just sent, the instant the dispatch finished, and the pacing interval.
pub open spec fn spec_next_due(due_time: int, now: int, interval: int) -> int {
    if spec_elapsed(due_time, now) >= 2 * interval {
        now + interval
    } else {
        due_time + interval
    }
}

/// How long to wait before an instant that may already have passed: never
/// negative, so a dispatcher that is running late does not wait at all.
pub open spec fn spec_wait(due_time: int, now: int) -> int {
    if due_time > now {
        due_time - now
    } else {
        0
    }
}

/// Drift-corrected due time for the next packet of a flow.
pub fn next_due_time(due_time: u64, now: u64, interval: u64) -> (r: u64)
    requires
        interval <= u64::MAX / 2,
        due_time + interval <= u64::MAX,
        now + interval <= u64::MAX,
    ensures
        r == spec_next_due(due_time as int, now as int, interval as int),
{
    let elapsed: u64 = if now >= due_time {
        now - due_time
    } else {
        0
    };
    if elapsed >= 2 * interval {
        now + interval
    } else {
        due_time + interval
    }
}

/// Nanoseconds to sleep until `due_time`, or zero when it already passed.
pub fn wait_nanos(due_time: u64, now: u64) -> (r: u64)
    ensures
        r == spec_wait(due_time as int, now as int),
{
    if due_time > now {
        due_time - now
    } else {
        0
    }
}

} // verus!
