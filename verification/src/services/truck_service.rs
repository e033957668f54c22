use vstd::prelude::*;
use crate::models::health::{AlertSeverity, HealthAlert, HealthStatus, ResourceUsage};
use crate::models::telemetry::TelemetryData;
use crate::models::truck::{CreateTruckRequest, Truck, TruckStatus, TruckSummary, UpdateTruckRequest};
use crate::util::ids::{new_uuid, uuid_text};
use crate::util::text::{lemma_hex_digits_len, to_upper_char, upper_char, uuid_hyphenated};

verus! {

// ---------------------------------------------------------------------------
// Validation: text fields have length bounds, counted in characters.

pub open spec fn within(s: Seq<char>, min: int, max: int) -> bool {
    min <= s.len() <= max
}

pub open spec fn fail_if(bad: bool, field: Seq<char>) -> Seq<Seq<char>> {
    if bad {
        seq![field]
    } else {
        seq![]
    }
}

pub open spec fn fail_if_some(v: Option<String>, min: int, max: int, field: Seq<char>) -> Seq<Seq<char>> {
    match v {
        Some(s) => fail_if(!within(s@, min, max), field),
        None => seq![],
    }
}

/// Fields of a registration request that break their bounds, in declaration
/// order: model and make 1-100 characters, year and plate 1-50, VIN 1-100.
pub open spec fn create_request_failures(r: CreateTruckRequest) -> Seq<Seq<char>> {
    fail_if(!within(r.model@, 1, 100), "model"@) + fail_if(!within(r.make@, 1, 100), "make"@)
        + fail_if(!within(r.year@, 1, 50), "year"@) + fail_if(!within(r.license_plate@, 1, 50), "license_plate"@)
        + fail_if(!within(r.vin@, 1, 100), "vin"@)
}

/// Fields of an update request that are present and break their bounds.
pub open spec fn update_request_failures(r: UpdateTruckRequest) -> Seq<Seq<char>> {
    fail_if_some(r.model, 1, 100, "model"@) + fail_if_some(r.make, 1, 100, "make"@) + fail_if_some(
        r.year,
        1,
        50,
        "year"@,
    ) + fail_if_some(r.license_plate, 1, 50, "license_plate"@) + fail_if_some(r.vin, 1, 100, "vin"@)
}

/// A request that breaks length bounds; lists the offending fields.
#[derive(Debug)]
pub struct ValidationErrors {
    pub fields: Vec<&'static str>,
}

pub open spec fn field_names(v: Seq<&'static str>) -> Seq<Seq<char>> {
    v.map_values(|f: &'static str| f@)
}

fn check_length(
    fields: &mut Vec<&'static str>,
    value: &str,
    min: usize,
    max: usize,
    field: &'static str,
)
    ensures
        field_names(final(fields)@) == field_names(old(fields)@) + fail_if(
            !within(value@, min as int, max as int),
            field@,
        ),
{
    let n = value.unicode_len();
    if n < min || n > max {
        fields.push(field);
    }
    assert(field_names(final(fields)@) =~= field_names(old(fields)@) + fail_if(
        !within(value@, min as int, max as int),
        field@,
    ));
}

fn check_optional_length(
    fields: &mut Vec<&'static str>,
    value: &Option<String>,
    min: usize,
    max: usize,
    field: &'static str,
)
    ensures
        field_names(final(fields)@) == field_names(old(fields)@) + fail_if_some(
            *value,
            min as int,
            max as int,
            field@,
        ),
{
    match value {
        Some(s) => check_length(fields, s.as_str(), min, max, field),
        None => {
            assert(field_names(final(fields)@) =~= field_names(old(fields)@) + fail_if_some(
                *value,
                min as int,
                max as int,
                field@,
            ));
        },
    }
}

impl CreateTruckRequest {
    /// Checks the length bounds of the request's fields.
    pub fn validate(&self) -> (r: Result<(), ValidationErrors>)
        ensures
            match r {
                Ok(_) => create_request_failures(*self).len() == 0,
                Err(e) => create_request_failures(*self).len() > 0 && field_names(e.fields@)
                    == create_request_failures(*self),
            },
    {
        let mut fields: Vec<&'static str> = Vec::new();
        check_length(&mut fields, self.model.as_str(), 1, 100, "model");
        check_length(&mut fields, self.make.as_str(), 1, 100, "make");
        check_length(&mut fields, self.year.as_str(), 1, 50, "year");
        check_length(&mut fields, self.license_plate.as_str(), 1, 50, "license_plate");
        check_length(&mut fields, self.vin.as_str(), 1, 100, "vin");
        assert(field_names(fields@) =~= create_request_failures(*self));
        if fields.len() == 0 {
            Ok(())
        } else {
            Err(ValidationErrors { fields })
        }
    }
}

impl UpdateTruckRequest {
    /// Checks the length bounds of the fields the request sets.
    pub fn validate(&self) -> (r: Result<(), ValidationErrors>)
        ensures
            match r {
                Ok(_) => update_request_failures(*self).len() == 0,
                Err(e) => update_request_failures(*self).len() > 0 && field_names(e.fields@)
                    == update_request_failures(*self),
            },
    {
        let mut fields: Vec<&'static str> = Vec::new();
        check_optional_length(&mut fields, &self.model, 1, 100, "model");
        check_optional_length(&mut fields, &self.make, 1, 100, "make");
        check_optional_length(&mut fields, &self.year, 1, 50, "year");
        check_optional_length(&mut fields, &self.license_plate, 1, 50, "license_plate");
        check_optional_length(&mut fields, &self.vin, 1, 100, "vin");
        assert(field_names(fields@) =~= update_request_failures(*self));
        if fields.len() == 0 {
            Ok(())
        } else {
            Err(ValidationErrors { fields })
        }
    }
}

// ---------------------------------------------------------------------------
// Registration and update.

pub open spec fn upper_text(s: Seq<char>) -> Seq<char> {
    s.map_values(|c: char| upper_char(c))
}

/// Fleet code of a truck: `TRK-` and the first eight hexadecimal digits of
/// a UUID, upper-cased.
pub open spec fn truck_code_of(u: u128) -> Seq<char> {
    "TRK-"@ + upper_text(uuid_hyphenated(u).subrange(0, 8))
}

/// The fleet code derived from the UUID `u`.
pub fn truck_code(u: u128) -> (code: String)
    ensures
        code@ == truck_code_of(u),
{
    let text = uuid_text(u);
    proof {
        lemma_hex_digits_len(u as nat, 32);
    }
    assert(text@.len() >= 8);
    let mut code = String::from_str("TRK-");
    let ghost prefix = code@;
    let mut i: usize = 0;
    while i < 8
        invariant
            text@ == uuid_hyphenated(u),
            text@.len() >= 8,
            i <= 8,
            code@ == prefix + upper_text(text@.subrange(0, i as int)),
        decreases 8 - i,
    {
        let c = text.as_str().get_char(i);
        code.push(to_upper_char(c));
        assert(upper_text(text@.subrange(0, i + 1)) =~= upper_text(text@.subrange(0, i as int)).push(
            upper_char(c),
        ));
        i = i + 1;
    }
    proof {
        reveal_strlit("TRK-");
    }
    code
}

/// A truck registered from a valid request at `now`: a fresh id, a fresh
/// fleet code, offline, at the origin, not yet assigned a driver.
pub open spec fn registered(t: Truck, r: CreateTruckRequest, now: i64) -> bool {
    &&& exists|u: u128| t.truck_id@ == #[trigger] truck_code_of(u)
    &&& t.model@ == r.model@
    &&& t.make@ == r.make@
    &&& t.year@ == r.year@
    &&& t.license_plate@ == r.license_plate@
    &&& t.vin@ == r.vin@
    &&& t.fleet_id == r.fleet_id
    &&& t.driver_id is None
    &&& t.status == TruckStatus::Offline
    &&& t.last_seen == now
    &&& t.latitude == 0
    &&& t.longitude == 0
    &&& t.created_at == now
    &&& t.updated_at == now
}

/// Registers a truck from a request, refusing requests that break the
/// length bounds.
pub fn new_truck(request: CreateTruckRequest, now: i64) -> (r: Result<Truck, ValidationErrors>)
    ensures
        match r {
            Ok(t) => create_request_failures(request).len() == 0 && registered(t, request, now),
            Err(e) => create_request_failures(request).len() > 0 && field_names(e.fields@)
                == create_request_failures(request),
        },
{
    match request.validate() {
        Err(e) => Err(e),
        Ok(_) => {
            let id = new_uuid();
            let code_source = new_uuid();
            let truck_id = truck_code(code_source);
            let t = Truck {
                id,
                truck_id,
                model: request.model,
                make: request.make,
                year: request.year,
                license_plate: request.license_plate,
                vin: request.vin,
                fleet_id: request.fleet_id,
                driver_id: None,
                status: TruckStatus::Offline,
                last_seen: now,
                latitude: 0,
                longitude: 0,
                created_at: now,
                updated_at: now,
            };
            assert(t.truck_id@ == truck_code_of(code_source));
            Ok(t)
        },
    }
}

pub open spec fn or_text(o: Option<String>, d: String) -> Seq<char> {
    match o {
        Some(s) => s@,
        None => d@,
    }
}

pub open spec fn or_value<T>(o: Option<T>, d: T) -> T {
    match o {
        Some(v) => v,
        None => d,
    }
}

/// The truck after an update at `now`: each field the request sets takes
/// the new value, the others keep theirs; identity, position and creation
/// time never change.
pub open spec fn updated(t: Truck, before: Truck, r: UpdateTruckRequest, now: i64) -> bool {
    &&& t.id == before.id
    &&& t.truck_id@ == before.truck_id@
    &&& t.model@ == or_text(r.model, before.model)
    &&& t.make@ == or_text(r.make, before.make)
    &&& t.year@ == or_text(r.year, before.year)
    &&& t.license_plate@ == or_text(r.license_plate, before.license_plate)
    &&& t.vin@ == or_text(r.vin, before.vin)
    &&& t.fleet_id == (match r.fleet_id {
        Some(f) => Some(f),
        None => before.fleet_id,
    })
    &&& t.driver_id == (match r.driver_id {
        Some(d) => Some(d),
        None => before.driver_id,
    })
    &&& t.status == or_value(r.status, before.status)
    &&& t.last_seen == before.last_seen
    &&& t.latitude == before.latitude
    &&& t.longitude == before.longitude
    &&& t.created_at == before.created_at
    &&& t.updated_at == now
}

/// An update gives every field the request sets the requested value, and
/// keeps the truck's own value in every field it leaves unset.
pub proof fn lemma_update_applies_request(t: Truck, before: Truck, r: UpdateTruckRequest, now: i64)
    requires
        updated(t, before, r, now),
    ensures
        r.model matches Some(v) ==> t.model@ == v@,
        r.make matches Some(v) ==> t.make@ == v@,
        r.year matches Some(v) ==> t.year@ == v@,
        r.license_plate matches Some(v) ==> t.license_plate@ == v@,
        r.vin matches Some(v) ==> t.vin@ == v@,
        r.fleet_id matches Some(v) ==> t.fleet_id == Some(v),
        r.driver_id matches Some(v) ==> t.driver_id == Some(v),
        r.status matches Some(v) ==> t.status == v,
        r.model is None ==> t.model@ == before.model@,
        r.make is None ==> t.make@ == before.make@,
        r.year is None ==> t.year@ == before.year@,
        r.license_plate is None ==> t.license_plate@ == before.license_plate@,
        r.vin is None ==> t.vin@ == before.vin@,
        r.fleet_id is None ==> t.fleet_id == before.fleet_id,
        r.driver_id is None ==> t.driver_id == before.driver_id,
        r.status is None ==> t.status == before.status,
{
}

fn take_or(o: Option<String>, d: String) -> (s: String)
    ensures
        s@ == or_text(o, d),
{
    match o {
        Some(s) => s,
        None => d,
    }
}

/// Applies an update request to a truck, refusing requests that break the
/// length bounds.
pub fn updated_truck(existing: Truck, request: UpdateTruckRequest, now: i64) -> (r: Result<Truck, ValidationErrors>)
    ensures
        match r {
            Ok(t) => update_request_failures(request).len() == 0 && updated(t, existing, request, now),
            Err(e) => update_request_failures(request).len() > 0 && field_names(e.fields@)
                == update_request_failures(request),
        },
{
    match request.validate() {
        Err(e) => Err(e),
        Ok(_) => {
            let ghost old_truck = existing;
            let ghost req = request;
            let t = Truck {
                id: existing.id,
                truck_id: existing.truck_id,
                model: take_or(request.model, existing.model),
                make: take_or(request.make, existing.make),
                year: take_or(request.year, existing.year),
                license_plate: take_or(request.license_plate, existing.license_plate),
                vin: take_or(request.vin, existing.vin),
                fleet_id: match request.fleet_id {
                    Some(f) => Some(f),
                    None => existing.fleet_id,
                },
                driver_id: match request.driver_id {
                    Some(d) => Some(d),
                    None => existing.driver_id,
                },
                status: match request.status {
                    Some(s) => s,
                    None => existing.status,
                },
                last_seen: existing.last_seen,
                latitude: existing.latitude,
                longitude: existing.longitude,
                created_at: existing.created_at,
                updated_at: now,
            };
            Ok(t)
        },
    }
}

// ---------------------------------------------------------------------------
// Health scores, in thousandths of a point on a 0-100 scale.

pub open spec fn clamp(x: int, lo: int, hi: int) -> int {
    if x < lo {
        lo
    } else if x > hi {
        hi
    } else {
        x
    }
}

/// Number of device alerts of a given severity.
pub open spec fn count_severity(alerts: Seq<HealthAlert>, s: AlertSeverity) -> nat
    decreases alerts.len(),
{
    if alerts.len() == 0 {
        0
    } else {
        count_severity(alerts.drop_last(), s) + if alerts.last().severity == s {
            1nat
        } else {
            0nat
        }
    }
}

pub open spec fn excess(x: int, limit: int) -> int {
    if x > limit {
        x - limit
    } else {
        0
    }
}

/// Health score of a report: 100 points, less twice the CPU load above 80%,
/// one and a half times the memory use above 85% (rounded down), three
/// times the disk use above 90%, the temperature above 70 °C, ten points per
/// critical and five per warning alert; kept within 0 to 100.
pub open spec fn health_score(h: HealthStatus) -> int {
    score_of(h.resources, h.alerts@)
}

/// The health score of the given resource usage and device alerts.
pub open spec fn score_of(r: ResourceUsage, alerts: Seq<HealthAlert>) -> int {
    clamp(
        100_000 - 2 * excess(r.cpu_percent as int, 80_000) - (3 * excess(r.memory_percent as int, 85_000))
            / 2 - 3 * excess(r.disk_percent as int, 90_000) - excess(r.temperature_c as int, 70_000)
            - 10_000 * count_severity(alerts, AlertSeverity::Critical) - 5_000 * count_severity(
            alerts,
            AlertSeverity::Warning,
        ),
        0,
        100_000,
    )
}

/// A health score always lies between 0 and 100 points, whatever the
/// report.
pub proof fn lemma_health_score_in_range(h: HealthStatus)
    ensures
        0 <= health_score(h) <= 100_000,
{
}

/// Each device alert costs a fixed number of points, whatever else the
/// report holds: a critical alert 10 points and a warning 5 (a critical
/// alert costs twice a warning), an informational alert nothing; the score
/// never drops below 0.
pub proof fn lemma_alert_costs(r: ResourceUsage, alerts: Seq<HealthAlert>, a: HealthAlert)
    ensures
        a.severity == AlertSeverity::Critical ==> score_of(r, alerts.push(a)) == if score_of(r, alerts)
            >= 10_000 {
            score_of(r, alerts) - 10_000
        } else {
            0
        },
        a.severity == AlertSeverity::Warning ==> score_of(r, alerts.push(a)) == if score_of(r, alerts)
            >= 5_000 {
            score_of(r, alerts) - 5_000
        } else {
            0
        },
        a.severity == AlertSeverity::Info ==> score_of(r, alerts.push(a)) == score_of(r, alerts),
{
    assert(alerts.push(a).drop_last() =~= alerts);
    assert(alerts.push(a).last() == a);
}

/// A report within every resource limit (CPU 80 %, memory 85 %, disk 90 %,
/// 70 °C) scores full marks without device alerts, 90 points with a single
/// critical alert and 95 with a single warning.
pub proof fn lemma_nominal_report_scores(r: ResourceUsage, a: HealthAlert)
    requires
        r.cpu_percent <= 80_000,
        r.memory_percent <= 85_000,
        r.disk_percent <= 90_000,
        r.temperature_c <= 70_000,
    ensures
        score_of(r, Seq::empty()) == 100_000,
        a.severity == AlertSeverity::Critical ==> score_of(r, seq![a]) == 90_000,
        a.severity == AlertSeverity::Warning ==> score_of(r, seq![a]) == 95_000,
{
    lemma_alert_costs(r, Seq::empty(), a);
    assert(Seq::<HealthAlert>::empty().push(a) =~= seq![a]);
}

/// One more device alert never raises the health score.
pub proof fn lemma_alert_never_raises_score(r: ResourceUsage, alerts: Seq<HealthAlert>, a: HealthAlert)
    ensures
        score_of(r, alerts.push(a)) <= score_of(r, alerts),
{
    assert(alerts.push(a).drop_last() =~= alerts);
}

/// An update that sets nothing changes nothing but the update time.
pub proof fn lemma_empty_update_keeps_truck(t: Truck, before: Truck, r: UpdateTruckRequest, now: i64)
    requires
        updated(t, before, r, now),
        r.model is None,
        r.make is None,
        r.year is None,
        r.license_plate is None,
        r.vin is None,
        r.fleet_id is None,
        r.driver_id is None,
        r.status is None,
    ensures
        t.id == before.id,
        t.truck_id@ == before.truck_id@,
        t.model@ == before.model@,
        t.make@ == before.make@,
        t.year@ == before.year@,
        t.license_plate@ == before.license_plate@,
        t.vin@ == before.vin@,
        t.fleet_id == before.fleet_id,
        t.driver_id == before.driver_id,
        t.status == before.status,
        t.last_seen == before.last_seen,
        t.latitude == before.latitude,
        t.longitude == before.longitude,
        t.created_at == before.created_at,
        t.updated_at == now,
{
}

fn count_alerts(alerts: &Vec<HealthAlert>, s: AlertSeverity) -> (n: u64)
    ensures
        n == count_severity(alerts@, s),
{
    let mut n: u64 = 0;
    let mut i: usize = 0;
    while i < alerts.len()
        invariant
            i <= alerts@.len(),
            n == count_severity(alerts@.take(i as int), s),
            n <= i,
        decreases alerts@.len() - i,
    {
        assert(alerts@.take(i + 1).drop_last() =~= alerts@.take(i as int));
        if alerts[i].severity == s {
            n = n + 1;
        }
        i = i + 1;
    }
    assert(alerts@.take(i as int) =~= alerts@);
    n
}

fn excess_of(x: i64, limit: i64) -> (e: i128)
    ensures
        e == excess(x as int, limit as int),
{
    if x > limit {
        (x as i128) - (limit as i128)
    } else {
        0
    }
}

fn clamp_score(x: i128) -> (s: i64)
    ensures
        s == clamp(x as int, 0, 100_000),
{
    if x < 0 {
        0
    } else if x > 100_000 {
        100_000
    } else {
        x as i64
    }
}

/// Health score of a device report, within 0 to 100 points.
pub fn calculate_health_score(health_status: &HealthStatus) -> (score: i64)
    ensures
        score == health_score(*health_status),
        0 <= score <= 100_000,
{
    let r = &health_status.resources;
    let critical = count_alerts(&health_status.alerts, AlertSeverity::Critical);
    let warning = count_alerts(&health_status.alerts, AlertSeverity::Warning);
    let cpu = excess_of(r.cpu_percent, 80_000);
    let mem = excess_of(r.memory_percent, 85_000);
    let disk = excess_of(r.disk_percent, 90_000);
    let temp = excess_of(r.temperature_c, 70_000);
    let score: i128 = 100_000 - 2 * cpu - (3 * mem) / 2 - 3 * disk - temp - 10_000 * (critical as i128)
        - 5_000 * (warning as i128);
    clamp_score(score)
}

/// Points the device temperature contributes to the average score.
pub open spec fn temperature_points(temperature_c: int) -> int {
    if temperature_c > 75_000 {
        50_000
    } else if temperature_c > 65_000 {
        75_000
    } else {
        100_000
    }
}

/// Average score of a report: the mean of the CPU, memory and disk
/// headroom and of the temperature points (50 above 75 °C, 75 above 65 °C,
/// 100 otherwise), kept within 0 to 100; 85 when there is no report.
pub open spec fn average_health_score(h: Option<HealthStatus>) -> int {
    match h {
        Some(s) => clamp(
            ((100_000 - s.resources.cpu_percent) + (100_000 - s.resources.memory_percent) + (100_000
                - s.resources.disk_percent) + temperature_points(s.resources.temperature_c as int))
                / 4,
            0,
            100_000,
        ),
        None => 85_000,
    }
}

/// Average score of the latest report, or the default score without one.
pub fn average_score(health_status: &Option<HealthStatus>) -> (score: i64)
    ensures
        score == average_health_score(*health_status),
        0 <= score <= 100_000,
{
    match health_status {
        Some(s) => {
            let r = &s.resources;
            let temp: i128 = if r.temperature_c > 75_000 {
                50_000
            } else if r.temperature_c > 65_000 {
                75_000
            } else {
                100_000
            };
            let sum: i128 = (100_000 - (r.cpu_percent as i128)) + (100_000 - (r.memory_percent as i128))
                + (100_000 - (r.disk_percent as i128)) + temp;
            if sum < 0 {
                assert(sum / 4 < 0);
                0
            } else {
                clamp_score(sum / 4)
            }
        },
        None => 85_000,
    }
}

// ---------------------------------------------------------------------------
// Summaries.

/// Dashboard line of a truck given its latest telemetry, its open alert
/// count and its latest health report: speed and heading come from the
/// telemetry when there is one, the health score defaults to 100.
pub open spec fn summary_of(
    s: TruckSummary,
    t: Truck,
    latest: Option<TelemetryData>,
    active_alerts: i32,
    health: Option<HealthStatus>,
) -> bool {
    &&& s.id == t.id
    &&& s.truck_id@ == t.truck_id@
    &&& s.model@ == t.model@
    &&& s.make@ == t.make@
    &&& s.license_plate@ == t.license_plate@
    &&& s.status == t.status
    &&& s.last_seen == t.last_seen
    &&& s.latitude == t.latitude
    &&& s.longitude == t.longitude
    &&& s.speed_kmh == (match latest {
        Some(l) => Some(l.speed_kmh),
        None => None,
    })
    &&& s.heading == (match latest {
        Some(l) => Some(l.heading),
        None => None,
    })
    &&& s.active_alerts == active_alerts
    &&& s.health_score == (match health {
        Some(h) => health_score(h),
        None => 100_000,
    })
}

/// The dashboard line of a truck.
pub fn truck_summary(
    truck: &Truck,
    latest: &Option<TelemetryData>,
    active_alerts: i32,
    health: &Option<HealthStatus>,
) -> (s: TruckSummary)
    ensures
        summary_of(s, *truck, *latest, active_alerts, *health),
{
    TruckSummary {
        id: truck.id,
        truck_id: truck.truck_id.clone(),
        model: truck.model.clone(),
        make: truck.make.clone(),
        license_plate: truck.license_plate.clone(),
        status: truck.status,
        last_seen: truck.last_seen,
        latitude: truck.latitude,
        longitude: truck.longitude,
        speed_kmh: match latest {
            Some(l) => Some(l.speed_kmh),
            None => None,
        },
        heading: match latest {
            Some(l) => Some(l.heading),
            None => None,
        },
        active_alerts,
        health_score: match health {
            Some(h) => calculate_health_score(h),
            None => 100_000,
        },
    }
}

/// The line a truck gets in the fleet listing, before telemetry and health
/// are looked up: no speed or heading, no open alerts, full health.
pub fn listed_summary(truck: &Truck) -> (s: TruckSummary)
    ensures
        summary_of(s, *truck, None, 0, None),
{
    truck_summary(truck, &None, 0, &None)
}

} // verus!
