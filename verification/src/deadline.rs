//! Deadline arithmetic: how long the worker still has to wait, at a given
//! clock reading, before a scroll event's grace period has elapsed.

use vstd::prelude::*;

verus! {

/// The amount of time in nanoseconds that the painting task is given to paint
/// new tiles after a scroll event revealed them. When this expires, the
/// compositor composites anyway (showing a "checkerboard") to avoid dropping
/// the frame.
pub const FIXED_GRACE_PERIOD: u64 = 12_000_000;

/// The instant, in nanoseconds on the monotonic clock, at which the timeout
/// for the event processed at `timestamp` falls due.
pub open spec fn scroll_deadline(timestamp: u64, grace_period: u64) -> int {
    timestamp + grace_period
}

/// The due instant clamped to what a 64-bit clock reading can express; it
/// differs from `scroll_deadline` only for deadlines beyond the clock's range.
pub open spec fn clamped_deadline(timestamp: u64, grace_period: u64) -> int {
    if scroll_deadline(timestamp, grace_period) <= u64::MAX {
        scroll_deadline(timestamp, grace_period)
    } else {
        u64::MAX as int
    }
}

/// How many nanoseconds remain at clock reading `now` before the deadline of
/// the event processed at `timestamp`; zero once the deadline has passed.
pub open spec fn wait_for_deadline(timestamp: u64, grace_period: u64, now: u64) -> int {
    if clamped_deadline(timestamp, grace_period) <= now {
        0
    } else {
        clamped_deadline(timestamp, grace_period) - now
    }
}

/// Computes the remaining wait before the deadline of the event processed at
/// `timestamp`. An event whose deadline has already passed waits zero
/// nanoseconds: the timeout is due immediately.
pub fn compute_wait_ns(timestamp: u64, grace_period: u64, now: u64) -> (r: u64)
    ensures
        r == wait_for_deadline(timestamp, grace_period, now),
        now + r <= u64::MAX,
        scroll_deadline(timestamp, grace_period) <= now ==> r == 0,
{
    let deadline = timestamp.saturating_add(grace_period);
    if deadline <= now {
        0
    } else {
        deadline - now
    }
}

/// Waiting never ends before the deadline, and the wait is never negative:
/// the interval between a clock reading and the deadline's expiry is at least
/// the grace period minus the time already elapsed, and at least zero.
pub proof fn lemma_wait_covers_grace_period(timestamp: u64, grace_period: u64, now: u64)
    requires
        scroll_deadline(timestamp, grace_period) <= u64::MAX,
    ensures
        wait_for_deadline(timestamp, grace_period, now) >= 0,
        now + wait_for_deadline(timestamp, grace_period, now)
            >= scroll_deadline(timestamp, grace_period),
{
}

/// An event already past its deadline when dequeued takes the zero-wait path:
/// no delay is added before its timeout.
pub proof fn lemma_expired_event_waits_zero(timestamp: u64, grace_period: u64, now: u64)
    requires
        scroll_deadline(timestamp, grace_period) <= now,
    ensures
        wait_for_deadline(timestamp, grace_period, now) == 0,
{
}

/// The instant at which the worker's notification for the event processed at
/// `timestamp` goes out when the worker dequeues it at clock reading `now`:
/// the deadline, or `now` itself if the deadline has already passed.
pub open spec fn emission_instant(timestamp: u64, grace_period: u64, now: u64) -> int {
    now + wait_for_deadline(timestamp, grace_period, now)
}

/// Back-to-back scroll events closer together than the grace period make the
/// worker fall behind rather than coalesce: with the first event dequeued at
/// `now0`, before its deadline, its timeout goes out exactly at that deadline;
/// the second, dequeued only then, goes out exactly at its own deadline,
/// trailing the first by exactly the events' spacing — at least the grace
/// period minus that spacing whenever the spacing is at least half the grace
/// period.
pub proof fn lemma_backlog_emits_in_order(
    t1: u64,
    t2: u64,
    grace_period: u64,
    now0: u64,
    now1: u64,
)
    requires
        t1 <= t2,
        t2 - t1 < grace_period,
        now0 <= scroll_deadline(t1, grace_period),
        scroll_deadline(t2, grace_period) <= u64::MAX,
        now1 == emission_instant(t1, grace_period, now0),
    ensures
        now1 == scroll_deadline(t1, grace_period),
        emission_instant(t2, grace_period, now1) == scroll_deadline(t2, grace_period),
        emission_instant(t2, grace_period, now1) - now1 == t2 - t1,
        grace_period <= 2 * (t2 - t1) ==> emission_instant(t2, grace_period, now1) - now1
            >= grace_period - (t2 - t1),
{
}

} // verus!
