//! Timing arithmetic of the event producer: how long the input poll may
//! wait before the next tick is due, and when a tick must be emitted.
//! The producer measures the time since the last tick and feeds it in as
//! plain milliseconds.

use vstd::prelude::*;

verus! {

/// How long the input poll may still wait: the remainder of the tick
/// interval, or zero once a tick is already overdue (so the poll returns
/// promptly and the tick can be emitted).
pub fn poll_timeout(tick_rate_ms: u64, elapsed_ms: u64) -> (r: u64)
    ensures
        r == if elapsed_ms >= tick_rate_ms {
            0u64
        } else {
            (tick_rate_ms - elapsed_ms) as u64
        },
        elapsed_ms + r >= tick_rate_ms,
{
    if elapsed_ms >= tick_rate_ms {
        0
    } else {
        tick_rate_ms - elapsed_ms
    }
}

/// Whether a tick is due: one full interval has passed since the last
/// tick was emitted.
pub fn tick_due(elapsed_ms: u64, tick_rate_ms: u64) -> (r: bool)
    ensures
        r == (elapsed_ms >= tick_rate_ms),
{
    elapsed_ms >= tick_rate_ms
}

} // verus!
