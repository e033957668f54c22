use vstd::prelude::*;
use crate::util::ids::uuid_text;
use crate::util::text::uuid_hyphenated;

verus! {

/// The kinds of record kept in the cache.
#[derive(Clone, Copy, Debug, PartialEq, Eq, Structural)]
pub enum CachedRecord {
    /// Latest telemetry of a truck, keyed by truck.
    Telemetry,
    /// An alert, keyed by its id.
    Alert,
    /// An inference, keyed by its id.
    MlEvent,
    /// Latest health report of a truck, keyed by truck.
    HealthStatus,
    /// A truck, keyed by its id.
    Truck,
}

pub open spec fn record_prefix(kind: CachedRecord) -> Seq<char> {
    match kind {
        CachedRecord::Telemetry => "telemetry"@,
        CachedRecord::Alert => "alert"@,
        CachedRecord::MlEvent => "ml_event"@,
        CachedRecord::HealthStatus => "health_status"@,
        CachedRecord::Truck => "truck"@,
    }
}

/// Cache key of a record: its kind, a colon, and the id it is keyed by.
pub open spec fn cache_key_of(kind: CachedRecord, id: u128) -> Seq<char> {
    record_prefix(kind) + ":"@ + uuid_hyphenated(id)
}

/// How long a record stays cached: five minutes for the latest telemetry
/// and health report, an hour for the rest.
pub open spec fn ttl_of(kind: CachedRecord) -> u64 {
    match kind {
        CachedRecord::Telemetry | CachedRecord::HealthStatus => 300,
        _ => 3600,
    }
}

fn prefix_text(kind: CachedRecord) -> (p: &'static str)
    ensures
        p@ == record_prefix(kind),
{
    match kind {
        CachedRecord::Telemetry => "telemetry",
        CachedRecord::Alert => "alert",
        CachedRecord::MlEvent => "ml_event",
        CachedRecord::HealthStatus => "health_status",
        CachedRecord::Truck => "truck",
    }
}

/// The key under which a record is cached.
pub fn cache_key(kind: CachedRecord, id: u128) -> (key: String)
    ensures
        key@ == cache_key_of(kind, id),
{
    let mut key = String::from_str(prefix_text(kind));
    key.append(":");
    let t = uuid_text(id);
    key.append(t.as_str());
    key
}

/// Seconds a record stays cached.
pub fn cache_ttl_secs(kind: CachedRecord) -> (secs: u64)
    ensures
        secs == ttl_of(kind),
{
    match kind {
        CachedRecord::Telemetry | CachedRecord::HealthStatus => 300,
        _ => 3600,
    }
}

} // verus!
