use vstd::prelude::*;
use crate::models::alert::{Alert, AlertStatus};

verus! {

/// The alert once an operator acknowledged it at `now`.
pub open spec fn acknowledgement(alert: Alert, now: i64) -> Alert {
    Alert { status: AlertStatus::Acknowledged, acknowledged_at: Some(now), updated_at: now, ..alert }
}

/// The alert once it was resolved at `now`.
pub open spec fn resolution(alert: Alert, now: i64) -> Alert {
    Alert { status: AlertStatus::Resolved, resolved_at: Some(now), updated_at: now, ..alert }
}

/// The alert once an operator acknowledged it at `now`.
pub fn acknowledged(alert: Alert, now: i64) -> (a: Alert)
    ensures
        a == acknowledgement(alert, now),
{
    Alert { status: AlertStatus::Acknowledged, acknowledged_at: Some(now), updated_at: now, ..alert }
}

/// The alert once it was resolved at `now`.
pub fn resolved(alert: Alert, now: i64) -> (a: Alert)
    ensures
        a == resolution(alert, now),
{
    Alert { status: AlertStatus::Resolved, resolved_at: Some(now), updated_at: now, ..alert }
}

/// Acknowledging and then resolving an alert leaves it resolved, with both
/// times on record and everything it reported unchanged.
pub proof fn lemma_acknowledge_then_resolve(alert: Alert, acked_at: i64, resolved_at: i64)
    ensures
        ({
            let r = resolution(acknowledgement(alert, acked_at), resolved_at);
            &&& r.status == AlertStatus::Resolved
            &&& r.acknowledged_at == Some(acked_at)
            &&& r.resolved_at == Some(resolved_at)
            &&& r.updated_at == resolved_at
            &&& r == Alert {
                status: AlertStatus::Resolved,
                acknowledged_at: Some(acked_at),
                resolved_at: Some(resolved_at),
                updated_at: resolved_at,
                ..alert
            }
        }),
{
}

} // verus!
