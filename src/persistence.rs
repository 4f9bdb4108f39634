//! How the rules' windows map onto the durable store's queries and
//! retention: the store counts attempts with `timestamp >= start`, and
//! keeps anomaly reports 30 days longer than window state.
use vstd::prelude::*;

verus! {

/// Seconds that anomaly reports outlive the pruning cutoff (30 days).
pub const REPORT_RETENTION_SECONDS: i64 = 30 * 24 * 3600;

/// The first timestamp a store count includes for an event at `timestamp`,
/// so that `t >= start` holds exactly for the `t` inside the window
/// `(timestamp - window_seconds, timestamp]`.
pub fn attempt_window_start(timestamp: i64, window_seconds: i64) -> (r: i64)
    requires
        i64::MIN <= timestamp - window_seconds + 1 <= i64::MAX,
    ensures
        r == timestamp - window_seconds + 1,
{
    (timestamp as i128 - window_seconds as i128 + 1) as i64
}

/// Anomaly reports older than this are removed when window state before
/// `before` is pruned.
pub fn report_retention_cutoff(before: i64) -> (r: i64)
    requires
        before - REPORT_RETENTION_SECONDS >= i64::MIN,
    ensures
        r == before - REPORT_RETENTION_SECONDS,
{
    before - REPORT_RETENTION_SECONDS
}

} // verus!
