use vstd::prelude::*;

verus! {

/// How long to wait after an overdue tick, in milliseconds.
pub const OVERDUE_WAIT_MS: u64 = 1000;

/// How long the input reader waits for an event, in milliseconds, when
/// `elapsed` of the `tick_rate` period have gone by: the rest of the
/// period, or a second once the period is over.
pub fn poll_timeout(tick_rate: u64, elapsed: u64) -> (r: u64)
    ensures
        elapsed <= tick_rate ==> r == tick_rate - elapsed,
        elapsed > tick_rate ==> r == OVERDUE_WAIT_MS,
{
    if elapsed <= tick_rate {
        tick_rate - elapsed
    } else {
        OVERDUE_WAIT_MS
    }
}

/// Whether a tick is due once `elapsed` milliseconds of the `tick_rate`
/// period have gone by.
pub fn tick_due(tick_rate: u64, elapsed: u64) -> (r: bool)
    ensures
        r == (elapsed >= tick_rate),
{
    elapsed >= tick_rate
}

} // verus!
