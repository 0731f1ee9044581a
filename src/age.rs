//! How old a store's timestamp is, for readers.

use vstd::prelude::*;

verus! {

/// The age of timestamp `ts` at `now`, in milliseconds: `None` for a store
/// that was never stamped (a zero timestamp), zero for a time not in the past.
pub open spec fn age_at(ts: u64, now: u64) -> Option<u64> {
    if ts == 0 {
        None
    } else if now > ts {
        Some((now - ts) as u64)
    } else {
        Some(0)
    }
}

/// The age of `ts_ms` at `now_ms`, or `None` where the timestamp is zero.
pub fn timestamp_age(ts_ms: u64, now_ms: u64) -> (r: Option<u64>)
    ensures
        r == age_at(ts_ms, now_ms),
{
    if ts_ms == 0 {
        None
    } else if now_ms > ts_ms {
        Some(now_ms - ts_ms)
    } else {
        Some(0)
    }
}

} // verus!
