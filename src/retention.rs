//! Which persisted trades the periodic retention sweep removes.

use vstd::prelude::*;

verus! {

/// How long persisted trades are kept: seven days, in milliseconds.
pub const RETENTION_MS: i64 = 7 * 24 * 60 * 60 * 1000;

/// The oldest timestamp that survives a sweep at `now`.
pub open spec fn cutoff_at(now: i64) -> i64 {
    if now - RETENTION_MS < i64::MIN { i64::MIN } else { (now - RETENTION_MS) as i64 }
}

/// The cutoff of a sweep at `now_ms`: seven days earlier (the earliest
/// time, where that would be out of range).
pub fn retention_cutoff(now_ms: i64) -> (r: i64)
    ensures
        r == cutoff_at(now_ms),
{
    if now_ms < i64::MIN + RETENTION_MS {
        i64::MIN
    } else {
        now_ms - RETENTION_MS
    }
}

/// Whether a sweep at `now_ms` removes a row stamped `ts_ms`: it does for
/// rows older than the cutoff.
pub fn is_expired(ts_ms: i64, now_ms: i64) -> (r: bool)
    ensures
        r == (ts_ms < cutoff_at(now_ms)),
{
    ts_ms < retention_cutoff(now_ms)
}

} // verus!
