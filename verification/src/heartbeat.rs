//! Heartbeat bookkeeping shared by both ends: when the client owes the next
//! probe, and when a silent peer is past its liveness window. Times are
//! milliseconds on the caller's monotonic clock.

use vstd::prelude::*;

verus! {

/// The deadline `window` milliseconds after `now`, pinned to the clock's
/// ceiling instead of wrapping.
pub fn next_deadline(now: u64, window: u64) -> (r: u64)
    ensures
        r == if now + window <= u64::MAX {
            (now + window) as u64
        } else {
            u64::MAX
        },
{
    if now <= u64::MAX - window {
        now + window
    } else {
        u64::MAX
    }
}

/// Whether a deadline has passed at `now`.
pub fn is_expired(now: u64, deadline: u64) -> (r: bool)
    ensures
        r == (now >= deadline),
{
    now >= deadline
}

/// Whether a heartbeat is due: one full interval has passed since the last
/// send. A send already in flight is the caller's concern; it simply calls
/// again later.
pub fn should_send(now: u64, last_sent: u64, interval: u64) -> (r: bool)
    ensures
        r == (last_sent + interval <= now),
{
    now >= last_sent && now - last_sent >= interval
}

} // verus!
