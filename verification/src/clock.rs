use vstd::prelude::*;

verus! {

/// The time passed from `since` to `now`, in milliseconds of a monotonic clock;
/// never negative, as with `Instant::elapsed`.
pub open spec fn elapsed(since: u64, now: u64) -> int {
    if now >= since {
        now - since
    } else {
        0
    }
}

/// The time passed from `since` to `now`, as `elapsed` gives it.
pub fn elapsed_ms(since: u64, now: u64) -> (r: u64)
    ensures
        r == elapsed(since, now),
{
    if now >= since {
        now - since
    } else {
        0
    }
}

} // verus!
