use vstd::prelude::*;
use crate::models::ota::OtaStatus;

verus! {

/// Nanoseconds in an hour.
pub const HOUR_NS: i64 = 3_600_000_000_000;

/// Starts of the periods that statistics count recent records over: the
/// last 24 hours, 7 days and 30 days. Times are nanoseconds since the Unix
/// epoch.
#[derive(Clone, Copy, Debug, PartialEq, Eq, Structural)]
pub struct StatWindows {
    pub last_24_hours: i64,
    pub last_7_days: i64,
    pub last_30_days: i64,
}

/// The periods of statistics taken at `now`.
pub fn stat_windows(now: i64) -> (w: StatWindows)
    requires
        now >= i64::MIN + 720 * HOUR_NS,
    ensures
        w.last_24_hours == now - 24 * HOUR_NS,
        w.last_7_days == now - 7 * 24 * HOUR_NS,
        w.last_30_days == now - 30 * 24 * HOUR_NS,
{
    StatWindows {
        last_24_hours: now - 24 * HOUR_NS,
        last_7_days: now - 168 * HOUR_NS,
        last_30_days: now - 720 * HOUR_NS,
    }
}

/// An update counts as in progress while it downloads, verifies or applies.
pub open spec fn in_progress(s: OtaStatus) -> bool {
    s == OtaStatus::Downloading || s == OtaStatus::Verifying || s == OtaStatus::Applying
}

/// Whether update statistics count a status as in progress.
pub fn counts_as_in_progress(s: OtaStatus) -> (r: bool)
    ensures
        r == in_progress(s),
{
    match s {
        OtaStatus::Downloading | OtaStatus::Verifying | OtaStatus::Applying => true,
        _ => false,
    }
}

} // verus!
