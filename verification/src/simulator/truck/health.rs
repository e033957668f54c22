use vstd::prelude::*;
use crate::simulator::types::{AlertSeverity, HealthAlert, HealthStatus, NetworkQuality};
use crate::util::random::{random_chance, random_in};
use crate::util::text::same_text;

verus! {

/// Progress through a scenario, `elapsed / duration`, lies below
/// `tenths / 10`. A scenario of no duration has unbounded (or undefined)
/// progress, which lies below nothing.
pub open spec fn progress_under(elapsed: nat, duration: nat, tenths: nat) -> bool {
    duration > 0 && elapsed * 10 < tenths * duration
}

/// Progress through a scenario lies above `tenths / 10`. With no duration,
/// any elapsed time counts as unbounded progress; none counts as undefined,
/// which lies above nothing.
pub open spec fn progress_over(elapsed: nat, duration: nat, tenths: nat) -> bool {
    if duration > 0 {
        elapsed * 10 > tenths * duration
    } else {
        elapsed > 0
    }
}

/// A device alert of the given kind raised at `timestamp`.
pub open spec fn device_alert(
    a: HealthAlert,
    alert_type: Seq<char>,
    severity: AlertSeverity,
    message: Seq<char>,
    timestamp: u64,
) -> bool {
    &&& a.alert_type@ == alert_type
    &&& a.severity == severity
    &&& a.message@ == message
    &&& a.timestamp == timestamp
}

pub open spec fn high_cpu_alert(a: HealthAlert, timestamp: u64) -> bool {
    device_alert(a, "high_cpu_usage"@, AlertSeverity::Warning, "CPU usage is high"@, timestamp)
}

pub open spec fn high_temperature_alert(a: HealthAlert, timestamp: u64) -> bool {
    device_alert(
        a,
        "high_temperature"@,
        AlertSeverity::Critical,
        "System temperature critical"@,
        timestamp,
    )
}

pub open spec fn harsh_braking_alert(a: HealthAlert, timestamp: u64) -> bool {
    device_alert(a, "harsh_braking"@, AlertSeverity::Warning, "Harsh braking detected"@, timestamp)
}

pub open spec fn rapid_acceleration_alert(a: HealthAlert, timestamp: u64) -> bool {
    device_alert(
        a,
        "rapid_acceleration"@,
        AlertSeverity::Warning,
        "Rapid acceleration detected"@,
        timestamp,
    )
}

pub open spec fn low_disk_alert(a: HealthAlert, timestamp: u64) -> bool {
    device_alert(a, "low_disk_space"@, AlertSeverity::Warning, "Disk space low"@, timestamp)
}

pub open spec fn network_latency_alert(a: HealthAlert, timestamp: u64) -> bool {
    device_alert(a, "network_latency"@, AlertSeverity::Warning, "Network latency high"@, timestamp)
}

/// The alerts a scenario can raise at a given progress: a failing system
/// may warn of high CPU past half-way and then report a critical
/// temperature past 70 %; hard braking or accelerating may warn once; any
/// other scenario may warn of low disk space and then of network latency.
pub open spec fn health_alerts_fit(
    es: Seq<HealthAlert>,
    scenario: Seq<char>,
    elapsed: nat,
    duration: nat,
    timestamp: u64,
) -> bool {
    if scenario == "system_failure"@ {
        let cpu_may = progress_over(elapsed, duration, 5);
        let temp_may = progress_over(elapsed, duration, 7);
        ||| es.len() == 0
        ||| es.len() == 1 && ((cpu_may && high_cpu_alert(es[0], timestamp)) || (temp_may
            && high_temperature_alert(es[0], timestamp)))
        ||| es.len() == 2 && cpu_may && temp_may && high_cpu_alert(es[0], timestamp)
            && high_temperature_alert(es[1], timestamp)
    } else if scenario == "emergency_braking"@ {
        es.len() == 0 || (es.len() == 1 && harsh_braking_alert(es[0], timestamp))
    } else if scenario == "rapid_acceleration"@ {
        es.len() == 0 || (es.len() == 1 && rapid_acceleration_alert(es[0], timestamp))
    } else {
        ||| es.len() == 0
        ||| es.len() == 1 && (low_disk_alert(es[0], timestamp) || network_latency_alert(
            es[0],
            timestamp,
        ))
        ||| es.len() == 2 && low_disk_alert(es[0], timestamp) && network_latency_alert(
            es[1],
            timestamp,
        )
    }
}

/// Alerts raised in turn: the first kind where `a` holds, then the second
/// where `b` holds.
pub open spec fn in_turn(
    es: Seq<HealthAlert>,
    a: bool,
    b: bool,
    first_kind: spec_fn(HealthAlert) -> bool,
    second_kind: spec_fn(HealthAlert) -> bool,
) -> bool {
    if a && b {
        es.len() == 2 && first_kind(es[0]) && second_kind(es[1])
    } else if a {
        es.len() == 1 && first_kind(es[0])
    } else if b {
        es.len() == 1 && second_kind(es[0])
    } else {
        es.len() == 0
    }
}

/// The alerts raised given the two draws. A failing system warns of high
/// CPU when past half-way and `first` was drawn, then reports a critical
/// temperature when past 70 % and `second` was drawn; hard braking or
/// accelerating warns when `first` was drawn; any other scenario warns of
/// low disk space when `first` was drawn, then of network latency when
/// `second` was.
pub open spec fn drawn_alerts(
    es: Seq<HealthAlert>,
    scenario: Seq<char>,
    elapsed: nat,
    duration: nat,
    timestamp: u64,
    first: bool,
    second: bool,
) -> bool {
    if scenario == "system_failure"@ {
        in_turn(
            es,
            progress_over(elapsed, duration, 5) && first,
            progress_over(elapsed, duration, 7) && second,
            |a: HealthAlert| high_cpu_alert(a, timestamp),
            |a: HealthAlert| high_temperature_alert(a, timestamp),
        )
    } else if scenario == "emergency_braking"@ {
        in_turn(
            es,
            first,
            false,
            |a: HealthAlert| harsh_braking_alert(a, timestamp),
            |a: HealthAlert| harsh_braking_alert(a, timestamp),
        )
    } else if scenario == "rapid_acceleration"@ {
        in_turn(
            es,
            first,
            false,
            |a: HealthAlert| rapid_acceleration_alert(a, timestamp),
            |a: HealthAlert| rapid_acceleration_alert(a, timestamp),
        )
    } else {
        in_turn(
            es,
            first,
            second,
            |a: HealthAlert| low_disk_alert(a, timestamp),
            |a: HealthAlert| network_latency_alert(a, timestamp),
        )
    }
}

/// The odds, as numerator and denominator, of the two draws that decide a
/// scenario's alerts: 3 in 10 for the CPU warning and 1 in 2 for the
/// temperature report of a failing system; 1 in 10 for the warning of hard
/// braking or accelerating (which raise no second alert); 1 in 100 for low
/// disk space and 1 in 200 for network latency otherwise.
pub open spec fn alert_odds(scenario: Seq<char>) -> ((u32, u32), (u32, u32)) {
    if scenario == "system_failure"@ {
        ((3, 10), (1, 2))
    } else if scenario == "emergency_braking"@ || scenario == "rapid_acceleration"@ {
        ((1, 10), (0, 1))
    } else {
        ((1, 100), (1, 200))
    }
}

/// Device readings a scenario can produce at a given progress. Normally
/// CPU runs 35 to 55 %, memory 50 to 70 %, disk 65 to 75 % and the device
/// 40 to 55 °C. A failing system runs normally for its first 30 %, then hot
/// (CPU 65 to 80 %, 60 to 75 °C) until 60 %, then critical (CPU 90 to 100 %,
/// 80 to 95 °C, memory 80 to 95 %); hard braking lifts CPU to 55 to 80 %,
/// hard accelerating to 60 to 85 % at 50 to 70 °C.
pub open spec fn device_readings_fit(h: HealthStatus, scenario: Seq<char>, elapsed: nat, duration: nat) -> bool {
    let base_cpu = 35_000 <= h.cpu_percent < 55_000;
    let base_memory = 50_000 <= h.memory_percent < 70_000;
    let base_temperature = 40_000 <= h.temperature_c < 55_000;
    &&& 65_000 <= h.disk_percent < 75_000
    &&& if scenario == "system_failure"@ {
        if progress_under(elapsed, duration, 3) {
            base_cpu && base_memory && base_temperature
        } else if progress_under(elapsed, duration, 6) {
            65_000 <= h.cpu_percent < 80_000 && base_memory && 60_000 <= h.temperature_c < 75_000
        } else {
            90_000 <= h.cpu_percent < 100_000 && 80_000 <= h.memory_percent < 95_000 && 80_000
                <= h.temperature_c < 95_000
        }
    } else if scenario == "emergency_braking"@ {
        55_000 <= h.cpu_percent < 80_000 && base_memory && base_temperature
    } else if scenario == "rapid_acceleration"@ {
        60_000 <= h.cpu_percent < 85_000 && base_memory && 50_000 <= h.temperature_c < 70_000
    } else {
        base_cpu && base_memory && base_temperature
    }
}

/// Network readings: 30 to 100 ms latency, up to 2.5 % loss, 800 to
/// 1500 kbit/s.
pub open spec fn network_fits(n: NetworkQuality) -> bool {
    &&& 30_000 <= n.latency_ms < 100_000
    &&& 0 <= n.packet_loss_percent < 2_500
    &&& 800_000 <= n.bandwidth_kbps < 1_500_000
}

/// A health report a scenario can produce at a given progress.
pub open spec fn health_status_fits(
    h: HealthStatus,
    scenario: Seq<char>,
    elapsed: nat,
    duration: nat,
    timestamp: u64,
) -> bool {
    &&& device_readings_fit(h, scenario, elapsed, duration)
    &&& network_fits(h.network_quality)
    &&& health_alerts_fit(h.alerts@, scenario, elapsed, duration, timestamp)
}

/// Time since the scenario started, zero if the clock reads earlier.
pub open spec fn elapsed_since(start_ms: u64, now_ms: u64) -> nat {
    if now_ms >= start_ms {
        (now_ms - start_ms) as nat
    } else {
        0
    }
}

/// A percentage held within 0 to 100 %.
pub open spec fn clamped_percent(v: int) -> int {
    if v < 0 {
        0
    } else if v > 100_000 {
        100_000
    } else {
        v
    }
}

fn clamp_percent(v: i64) -> (r: i64)
    ensures
        r == clamped_percent(v as int),
{
    if v < 0 {
        0
    } else if v > 100_000 {
        100_000
    } else {
        v
    }
}

/// Produces the device health of one truck; times in milliseconds on the
/// simulator's monotonic clock.
pub struct HealthGenerator {
    pub truck_id: String,
    pub scenario_duration_ms: u64,
    pub scenario_start_ms: u64,
}

fn alert(alert_type: &str, severity: AlertSeverity, message: &str, timestamp: u64) -> (a: HealthAlert)
    ensures
        device_alert(a, alert_type@, severity, message@, timestamp),
{
    HealthAlert {
        alert_type: String::from_str(alert_type),
        severity,
        message: String::from_str(message),
        timestamp,
    }
}

/// The alerts raised after `elapsed_ms` of a scenario lasting
/// `duration_ms`, at `timestamp`, given the two draws (see `drawn_alerts`).
pub fn alerts_for_draws(
    scenario: &str,
    elapsed_ms: u64,
    duration_ms: u64,
    timestamp: u64,
    first: bool,
    second: bool,
) -> (alerts: Vec<HealthAlert>)
    ensures
        drawn_alerts(alerts@, scenario@, elapsed_ms as nat, duration_ms as nat, timestamp, first, second),
{
    proof {
        reveal_strlit("system_failure");
        reveal_strlit("emergency_braking");
        reveal_strlit("rapid_acceleration");
    }
    let mut alerts: Vec<HealthAlert> = Vec::new();
    if same_text(scenario, "system_failure") {
        if over(elapsed_ms, duration_ms, 5) && first {
            alerts.push(alert("high_cpu_usage", AlertSeverity::Warning, "CPU usage is high", timestamp));
        }
        if over(elapsed_ms, duration_ms, 7) && second {
            alerts.push(
                alert("high_temperature", AlertSeverity::Critical, "System temperature critical", timestamp),
            );
        }
    } else if same_text(scenario, "emergency_braking") {
        if first {
            alerts.push(alert("harsh_braking", AlertSeverity::Warning, "Harsh braking detected", timestamp));
        }
    } else if same_text(scenario, "rapid_acceleration") {
        if first {
            alerts.push(
                alert("rapid_acceleration", AlertSeverity::Warning, "Rapid acceleration detected", timestamp),
            );
        }
    } else {
        if first {
            alerts.push(alert("low_disk_space", AlertSeverity::Warning, "Disk space low", timestamp));
        }
        if second {
            alerts.push(alert("network_latency", AlertSeverity::Warning, "Network latency high", timestamp));
        }
    }
    alerts
}

/// The odds of a scenario's two alert draws (see `alert_odds`).
pub fn alert_draw_odds(scenario: &str) -> (o: ((u32, u32), (u32, u32)))
    ensures
        o == alert_odds(scenario@),
{
    proof {
        reveal_strlit("system_failure");
        reveal_strlit("emergency_braking");
        reveal_strlit("rapid_acceleration");
    }
    if same_text(scenario, "system_failure") {
        ((3, 10), (1, 2))
    } else if same_text(scenario, "emergency_braking") || same_text(scenario, "rapid_acceleration") {
        ((1, 10), (0, 1))
    } else {
        ((1, 100), (1, 200))
    }
}

fn under(elapsed: u64, duration: u64, tenths: u64) -> (r: bool)
    requires
        tenths <= 10,
    ensures
        r == progress_under(elapsed as nat, duration as nat, tenths as nat),
{
    assert((tenths as u128) * (duration as u128) <= 10 * 0xffff_ffff_ffff_ffffu128) by (nonlinear_arith)
        requires
            tenths <= 10,
            duration <= 0xffff_ffff_ffff_ffffu64,
    ;
    duration > 0 && (elapsed as u128) * 10 < (tenths as u128) * (duration as u128)
}

fn over(elapsed: u64, duration: u64, tenths: u64) -> (r: bool)
    requires
        tenths <= 10,
    ensures
        r == progress_over(elapsed as nat, duration as nat, tenths as nat),
{
    assert((tenths as u128) * (duration as u128) <= 10 * 0xffff_ffff_ffff_ffffu128) by (nonlinear_arith)
        requires
            tenths <= 10,
            duration <= 0xffff_ffff_ffff_ffffu64,
    ;
    if duration > 0 {
        (elapsed as u128) * 10 > (tenths as u128) * (duration as u128)
    } else {
        elapsed > 0
    }
}

impl HealthGenerator {
    /// A generator with no scenario running yet: zero duration, started at
    /// `now_ms`.
    pub fn new(truck_id: &str, now_ms: u64) -> (g: Self)
        ensures
            g.truck_id@ == truck_id@,
            g.scenario_duration_ms == 0,
            g.scenario_start_ms == now_ms,
    {
        HealthGenerator {
            truck_id: String::from_str(truck_id),
            scenario_duration_ms: 0,
            scenario_start_ms: now_ms,
        }
    }

    /// Starts timing a scenario of the given length at `now_ms`.
    pub fn set_scenario(&mut self, scenario: &str, duration_minutes: u32, now_ms: u64)
        ensures
            final(self).truck_id == old(self).truck_id,
            final(self).scenario_duration_ms == duration_minutes as int * 60_000,
            final(self).scenario_start_ms == now_ms,
    {
        self.scenario_duration_ms = (duration_minutes as u64) * 60_000;
        self.scenario_start_ms = now_ms;
    }

    /// Device health at `now_ms`, with alerts stamped `timestamp`
    /// (nanoseconds since the Unix epoch).
    pub fn generate_health_status(&self, scenario: &str, now_ms: u64, timestamp: u64) -> (h:
        HealthStatus)
        ensures
            health_status_fits(
                h,
                scenario@,
                elapsed_since(self.scenario_start_ms, now_ms),
                self.scenario_duration_ms as nat,
                timestamp,
            ),
    {
        proof {
            reveal_strlit("system_failure");
            reveal_strlit("emergency_braking");
            reveal_strlit("rapid_acceleration");
        }
        let elapsed: u64 = if now_ms >= self.scenario_start_ms {
            now_ms - self.scenario_start_ms
        } else {
            0
        };
        let duration = self.scenario_duration_ms;
        let mut cpu_percent = 45_000 + random_in(-10_000, 10_000);
        let mut memory_percent = 60_000 + random_in(-10_000, 10_000);
        let disk_percent = 70_000 + random_in(-5_000, 5_000);
        let mut temperature_c = 45_000 + random_in(-5_000, 10_000);
        if same_text(scenario, "system_failure") {
            if under(elapsed, duration, 3) {
            } else if under(elapsed, duration, 6) {
                cpu_percent = 70_000 + random_in(-5_000, 10_000);
                temperature_c = 65_000 + random_in(-5_000, 10_000);
            } else {
                cpu_percent = 95_000 + random_in(-5_000, 5_000);
                temperature_c = 85_000 + random_in(-5_000, 10_000);
                memory_percent = 85_000 + random_in(-5_000, 10_000);
            }
        } else if same_text(scenario, "emergency_braking") {
            cpu_percent = 65_000 + random_in(-10_000, 15_000);
        } else if same_text(scenario, "rapid_acceleration") {
            cpu_percent = 70_000 + random_in(-10_000, 15_000);
            temperature_c = 55_000 + random_in(-5_000, 15_000);
        }
        let network_quality = NetworkQuality {
            latency_ms: 50_000 + random_in(-20_000, 50_000),
            packet_loss_percent: 500 + random_in(-500, 2_000),
            bandwidth_kbps: 1_000_000 + random_in(-200_000, 500_000),
        };
        let alerts = self.generate_alerts(scenario, elapsed, duration, timestamp);
        HealthStatus {
            cpu_percent: clamp_percent(cpu_percent),
            memory_percent: clamp_percent(memory_percent),
            disk_percent: clamp_percent(disk_percent),
            temperature_c: clamp_percent(temperature_c),
            network_quality,
            alerts,
        }
    }

    /// The alerts raised after `elapsed_ms` of a scenario lasting
    /// `duration_ms`.
    pub fn generate_alerts(&self, scenario: &str, elapsed_ms: u64, duration_ms: u64, timestamp: u64) -> (alerts: Vec<HealthAlert>)
        ensures
            health_alerts_fit(alerts@, scenario@, elapsed_ms as nat, duration_ms as nat, timestamp),
            exists|first: bool, second: bool|
                drawn_alerts(alerts@, scenario@, elapsed_ms as nat, duration_ms as nat, timestamp, first, second),
    {
        let ((n1, d1), (n2, d2)) = alert_draw_odds(scenario);
        let (first, second) = if same_text(scenario, "system_failure") {
            let cpu = over(elapsed_ms, duration_ms, 5) && random_chance(n1, d1);
            let temperature = over(elapsed_ms, duration_ms, 7) && random_chance(n2, d2);
            (cpu, temperature)
        } else {
            let first = random_chance(n1, d1);
            let second = random_chance(n2, d2);
            (first, second)
        };
        alerts_for_draws(scenario, elapsed_ms, duration_ms, timestamp, first, second)
    }
}

} // verus!
