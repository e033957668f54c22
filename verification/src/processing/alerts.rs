use vstd::prelude::*;
use crate::models::alert::{ActionType, Alert, AlertAction, AlertSeverity, AlertStatus, AlertType};
use crate::util::ids::{new_uuid, uuid_text};
use crate::util::text::{i64_text, signed_decimal, uuid_hyphenated};
use crate::models::health::HealthStatus;
use crate::models::ml::{MlEvent, MlResult};
use crate::models::telemetry::TelemetryData;

verus! {

/// A rule of the server's alerting policy that fired on a reading.
#[derive(Clone, Copy, Debug, PartialEq, Eq, Structural)]
pub enum AlertRule {
    HarshBraking,
    RapidAcceleration,
    OverSpeeding,
    DrowsyDriver,
    LaneDeparture,
    CargoTamper,
    TemperatureCritical,
    TemperatureHigh,
    DiskCritical,
    DiskLow,
    CpuCritical,
    CpuHigh,
}

/// An actuator command attached to an alert; `parameters` is JSON text and
/// `id_suffix` ends the identifier the issued action gets.
#[derive(Debug)]
pub struct ActionDraft {
    pub action_type: ActionType,
    pub id_suffix: String,
    pub target: String,
    pub parameters: String,
}

impl View for ActionDraft {
    type V = (ActionType, Seq<char>, Seq<char>, Seq<char>);

    open spec fn view(&self) -> (ActionType, Seq<char>, Seq<char>, Seq<char>) {
        (self.action_type, self.id_suffix@, self.target@, self.parameters@)
    }
}

/// The content of an alert as the rules decide it; identifiers, times and
/// the reading-specific context are added when the alert is issued.
#[derive(Debug)]
pub struct AlertDraft {
    pub rule: AlertRule,
    pub alert_type: AlertType,
    pub severity: AlertSeverity,
    pub message: String,
    pub source: String,
    pub actions: Vec<ActionDraft>,
}

pub struct AlertDraftView {
    pub rule: AlertRule,
    pub alert_type: AlertType,
    pub severity: AlertSeverity,
    pub message: Seq<char>,
    pub source: Seq<char>,
    pub actions: Seq<(ActionType, Seq<char>, Seq<char>, Seq<char>)>,
}

impl View for AlertDraft {
    type V = AlertDraftView;

    open spec fn view(&self) -> AlertDraftView {
        AlertDraftView {
            rule: self.rule,
            alert_type: self.alert_type,
            severity: self.severity,
            message: self.message@,
            source: self.source@,
            actions: self.actions@.map_values(|a: ActionDraft| a@),
        }
    }
}

pub open spec fn rule_alert_type(r: AlertRule) -> AlertType {
    match r {
        AlertRule::HarshBraking => AlertType::HarshBraking,
        AlertRule::RapidAcceleration => AlertType::RapidAcceleration,
        AlertRule::OverSpeeding => AlertType::OverSpeeding,
        AlertRule::DrowsyDriver => AlertType::DrowsyDriver,
        AlertRule::LaneDeparture => AlertType::LaneDeparture,
        AlertRule::CargoTamper => AlertType::CargoTamper,
        AlertRule::TemperatureCritical => AlertType::HighTemperature,
        AlertRule::TemperatureHigh => AlertType::HighTemperature,
        AlertRule::DiskCritical => AlertType::LowDiskSpace,
        AlertRule::DiskLow => AlertType::LowDiskSpace,
        AlertRule::CpuCritical => AlertType::HighCpuUsage,
        AlertRule::CpuHigh => AlertType::HighCpuUsage,
    }
}

pub open spec fn rule_severity(r: AlertRule) -> AlertSeverity {
    match r {
        AlertRule::HarshBraking => AlertSeverity::Warning,
        AlertRule::RapidAcceleration => AlertSeverity::Warning,
        AlertRule::OverSpeeding => AlertSeverity::Warning,
        AlertRule::DrowsyDriver => AlertSeverity::Emergency,
        AlertRule::LaneDeparture => AlertSeverity::Critical,
        AlertRule::CargoTamper => AlertSeverity::Critical,
        AlertRule::TemperatureCritical => AlertSeverity::Emergency,
        AlertRule::TemperatureHigh => AlertSeverity::Critical,
        AlertRule::DiskCritical => AlertSeverity::Critical,
        AlertRule::DiskLow => AlertSeverity::Warning,
        AlertRule::CpuCritical => AlertSeverity::Critical,
        AlertRule::CpuHigh => AlertSeverity::Warning,
    }
}

pub open spec fn rule_message(r: AlertRule) -> Seq<char> {
    match r {
        AlertRule::HarshBraking => "Harsh braking detected"@,
        AlertRule::RapidAcceleration => "Rapid acceleration detected"@,
        AlertRule::OverSpeeding => "Overspeeding detected"@,
        AlertRule::DrowsyDriver => "Drowsy driver detected - immediate attention required"@,
        AlertRule::LaneDeparture => "Lane departure detected - correct steering"@,
        AlertRule::CargoTamper => "Cargo tampering detected - check cargo area"@,
        AlertRule::TemperatureCritical => "System temperature critical - shutdown imminent"@,
        AlertRule::TemperatureHigh => "System temperature high - reduce load"@,
        AlertRule::DiskCritical => "Disk space critical - deleting old data"@,
        AlertRule::DiskLow => "Disk space low - consider cleanup"@,
        AlertRule::CpuCritical => "CPU usage critical - system may become unresponsive"@,
        AlertRule::CpuHigh => "CPU usage high - consider reducing load"@,
    }
}

pub open spec fn rule_source(r: AlertRule) -> Seq<char> {
    match r {
        AlertRule::HarshBraking | AlertRule::RapidAcceleration | AlertRule::OverSpeeding => "telemetry_processor"@,
        AlertRule::DrowsyDriver | AlertRule::LaneDeparture | AlertRule::CargoTamper => "ml_processor"@,
        _ => "health_processor"@,
    }
}

pub open spec fn rule_actions(r: AlertRule) -> Seq<(ActionType, Seq<char>, Seq<char>, Seq<char>)> {
    match r {
        AlertRule::HarshBraking => seq![
            (ActionType::TriggerBuzzer, "buzzer"@, "buzzer_1"@, "{\"duration_ms\":1000,\"pattern\":\"pulse\"}"@),
        ],
        AlertRule::RapidAcceleration => seq![
            (ActionType::FlashLed, "led"@, "led_yellow"@, "{\"duration_ms\":2000,\"pattern\":\"blink\"}"@),
        ],
        AlertRule::OverSpeeding => seq![
            (ActionType::ShowOnDisplay, "display"@, "display_1"@, "{\"duration_ms\":5000,\"message\":\"SLOW DOWN\"}"@),
        ],
        AlertRule::DrowsyDriver => seq![
            (ActionType::TriggerBuzzer, "buzzer"@, "buzzer_1"@, "{\"duration_ms\":2000,\"pattern\":\"pulse\",\"pulse_count\":10}"@),
            (ActionType::FlashLed, "led"@, "led_red"@, "{\"blink_count\":20,\"duration_ms\":10000,\"pattern\":\"blink\"}"@),
            (ActionType::ShowOnDisplay, "display"@, "display_1"@, "{\"duration_ms\":10000,\"message\":\"DROWSY DRIVER - PULL OVER\"}"@),
        ],
        AlertRule::LaneDeparture => seq![
            (ActionType::TriggerBuzzer, "buzzer"@, "buzzer_1"@, "{\"duration_ms\":500,\"pattern\":\"solid\"}"@),
            (ActionType::ShowOnDisplay, "display"@, "display_1"@, "{\"duration_ms\":3000,\"message\":\"LANE DEPARTURE\"}"@),
        ],
        AlertRule::CargoTamper => seq![
            (ActionType::TriggerBuzzer, "buzzer"@, "buzzer_2"@, "{\"duration_ms\":1000,\"pattern\":\"pulse\"}"@),
            (ActionType::FlashLed, "led"@, "led_orange"@, "{\"duration_ms\":5000,\"pattern\":\"blink\"}"@),
        ],
        AlertRule::TemperatureCritical => seq![
            (ActionType::ActivateRelay, "relay"@, "relay_1"@, "{\"activate\":true,\"duration_ms\":0}"@),
            (ActionType::ShowOnDisplay, "display"@, "display_1"@, "{\"duration_ms\":10000,\"message\":\"TEMP CRITICAL - SHUTDOWN\"}"@),
        ],
        AlertRule::TemperatureHigh => seq![
            (ActionType::ShowOnDisplay, "display"@, "display_1"@, "{\"duration_ms\":5000,\"message\":\"HIGH TEMP - REDUCE LOAD\"}"@),
        ],
        AlertRule::DiskCritical => seq![
            (ActionType::LogToServer, "log"@, "server"@, "{\"message\":\"Disk space critical - triggering cleanup\"}"@),
        ],
        AlertRule::DiskLow => seq![
            (ActionType::LogToServer, "log"@, "server"@, "{\"message\":\"Disk space low - monitoring\"}"@),
        ],
        AlertRule::CpuCritical => seq![
            (ActionType::LogToServer, "log"@, "server"@, "{\"message\":\"CPU usage critical - triggering degradation\"}"@),
        ],
        AlertRule::CpuHigh => seq![
            (ActionType::LogToServer, "log"@, "server"@, "{\"message\":\"CPU usage high - monitoring\"}"@),
        ],
    }
}

/// The full draft a rule produces.
pub open spec fn rule_draft(r: AlertRule) -> AlertDraftView {
    AlertDraftView {
        rule: r,
        alert_type: rule_alert_type(r),
        severity: rule_severity(r),
        message: rule_message(r),
        source: rule_source(r),
        actions: rule_actions(r),
    }
}

pub open spec fn drafts_view(d: Seq<AlertDraft>) -> Seq<AlertDraftView> {
    d.map_values(|a: AlertDraft| a@)
}

pub open spec fn rules_drafts(rules: Seq<AlertRule>) -> Seq<AlertDraftView> {
    rules.map_values(|r: AlertRule| rule_draft(r))
}

// ---------------------------------------------------------------------------
// The rules. Readings are compared in thousandths of their unit.

pub open spec fn sq(x: int) -> int {
    x * x
}

/// Total acceleration above 0.8 g, compared on squares (800² = 640000).
pub open spec fn is_harsh_braking(t: TelemetryData) -> bool {
    sq(t.sensors.imu.accel_x as int) + sq(t.sensors.imu.accel_y as int) + sq(t.sensors.imu.accel_z as int)
        > 640_000
}

/// Forward acceleration above 0.6 g.
pub open spec fn is_rapid_acceleration(t: TelemetryData) -> bool {
    t.sensors.imu.accel_x > 600
}

/// Speed above 100 km/h.
pub open spec fn is_overspeeding(t: TelemetryData) -> bool {
    t.speed_kmh > 100_000
}

pub open spec fn when(c: bool, r: AlertRule) -> Seq<AlertRule> {
    if c {
        seq![r]
    } else {
        seq![]
    }
}

/// Rules that fire on a telemetry sample, in the order they are checked.
pub open spec fn telemetry_rules(t: TelemetryData) -> Seq<AlertRule> {
    when(is_harsh_braking(t), AlertRule::HarshBraking)
        + when(is_rapid_acceleration(t), AlertRule::RapidAcceleration)
        + when(is_overspeeding(t), AlertRule::OverSpeeding)
}

/// Rules that fire on an inference: at most one, decided by its result kind.
pub open spec fn ml_rules(e: MlEvent) -> Seq<AlertRule> {
    match e.result {
        MlResult::Drowsiness { is_drowsy, .. } => when(
            is_drowsy && e.confidence > 800,
            AlertRule::DrowsyDriver,
        ),
        MlResult::LaneDeparture { is_departing, deviation_pixels } => when(
            is_departing && deviation_pixels > 50 && e.confidence > 700,
            AlertRule::LaneDeparture,
        ),
        MlResult::CargoTamper { is_tampered, .. } => when(
            is_tampered && e.confidence > 800,
            AlertRule::CargoTamper,
        ),
        _ => seq![],
    }
}

pub open spec fn temperature_rule(temperature_c: int) -> Seq<AlertRule> {
    if temperature_c > 80_000 {
        seq![AlertRule::TemperatureCritical]
    } else if temperature_c > 70_000 {
        seq![AlertRule::TemperatureHigh]
    } else {
        seq![]
    }
}

pub open spec fn disk_rule(disk_percent: int) -> Seq<AlertRule> {
    if disk_percent > 95_000 {
        seq![AlertRule::DiskCritical]
    } else if disk_percent > 90_000 {
        seq![AlertRule::DiskLow]
    } else {
        seq![]
    }
}

pub open spec fn cpu_rule(cpu_percent: int) -> Seq<AlertRule> {
    if cpu_percent > 95_000 {
        seq![AlertRule::CpuCritical]
    } else if cpu_percent > 85_000 {
        seq![AlertRule::CpuHigh]
    } else {
        seq![]
    }
}

/// Rules that fire on a health report: temperature, then disk, then CPU.
pub open spec fn health_rules(h: HealthStatus) -> Seq<AlertRule> {
    temperature_rule(h.resources.temperature_c as int) + disk_rule(h.resources.disk_percent as int)
        + cpu_rule(h.resources.cpu_percent as int)
}

// ---------------------------------------------------------------------------

fn action(action_type: ActionType, id_suffix: &str, target: &str, parameters: &str) -> (a: ActionDraft)
    ensures
        a@ == (action_type, id_suffix@, target@, parameters@),
{
    ActionDraft {
        action_type,
        id_suffix: String::from_str(id_suffix),
        target: String::from_str(target),
        parameters: String::from_str(parameters),
    }
}

fn assemble(
    rule: AlertRule,
    alert_type: AlertType,
    severity: AlertSeverity,
    message: &str,
    source: &str,
    actions: Vec<ActionDraft>,
) -> (d: AlertDraft)
    ensures
        d@ == (AlertDraftView {
            rule,
            alert_type,
            severity,
            message: message@,
            source: source@,
            actions: actions@.map_values(|a: ActionDraft| a@),
        }),
{
    AlertDraft {
        rule,
        alert_type,
        severity,
        message: String::from_str(message),
        source: String::from_str(source),
        actions,
    }
}

/// The alert content a rule prescribes.
pub fn draft_for(rule: AlertRule) -> (d: AlertDraft)
    ensures
        d@ == rule_draft(rule),
{
    let mut actions: Vec<ActionDraft> = Vec::new();
    match rule {
        AlertRule::HarshBraking => {
            actions.push(action(ActionType::TriggerBuzzer, "buzzer", "buzzer_1", "{\"duration_ms\":1000,\"pattern\":\"pulse\"}"));
            assert(actions@.map_values(|a: ActionDraft| a@) =~= rule_actions(rule));
            assemble(rule, AlertType::HarshBraking, AlertSeverity::Warning, "Harsh braking detected", "telemetry_processor", actions)
        },
        AlertRule::RapidAcceleration => {
            actions.push(action(ActionType::FlashLed, "led", "led_yellow", "{\"duration_ms\":2000,\"pattern\":\"blink\"}"));
            assert(actions@.map_values(|a: ActionDraft| a@) =~= rule_actions(rule));
            assemble(rule, AlertType::RapidAcceleration, AlertSeverity::Warning, "Rapid acceleration detected", "telemetry_processor", actions)
        },
        AlertRule::OverSpeeding => {
            actions.push(action(ActionType::ShowOnDisplay, "display", "display_1", "{\"duration_ms\":5000,\"message\":\"SLOW DOWN\"}"));
            assert(actions@.map_values(|a: ActionDraft| a@) =~= rule_actions(rule));
            assemble(rule, AlertType::OverSpeeding, AlertSeverity::Warning, "Overspeeding detected", "telemetry_processor", actions)
        },
        AlertRule::DrowsyDriver => {
            actions.push(action(ActionType::TriggerBuzzer, "buzzer", "buzzer_1", "{\"duration_ms\":2000,\"pattern\":\"pulse\",\"pulse_count\":10}"));
            actions.push(action(ActionType::FlashLed, "led", "led_red", "{\"blink_count\":20,\"duration_ms\":10000,\"pattern\":\"blink\"}"));
            actions.push(action(ActionType::ShowOnDisplay, "display", "display_1", "{\"duration_ms\":10000,\"message\":\"DROWSY DRIVER - PULL OVER\"}"));
            assert(actions@.map_values(|a: ActionDraft| a@) =~= rule_actions(rule));
            assemble(rule, AlertType::DrowsyDriver, AlertSeverity::Emergency, "Drowsy driver detected - immediate attention required", "ml_processor", actions)
        },
        AlertRule::LaneDeparture => {
            actions.push(action(ActionType::TriggerBuzzer, "buzzer", "buzzer_1", "{\"duration_ms\":500,\"pattern\":\"solid\"}"));
            actions.push(action(ActionType::ShowOnDisplay, "display", "display_1", "{\"duration_ms\":3000,\"message\":\"LANE DEPARTURE\"}"));
            assert(actions@.map_values(|a: ActionDraft| a@) =~= rule_actions(rule));
            assemble(rule, AlertType::LaneDeparture, AlertSeverity::Critical, "Lane departure detected - correct steering", "ml_processor", actions)
        },
        AlertRule::CargoTamper => {
            actions.push(action(ActionType::TriggerBuzzer, "buzzer", "buzzer_2", "{\"duration_ms\":1000,\"pattern\":\"pulse\"}"));
            actions.push(action(ActionType::FlashLed, "led", "led_orange", "{\"duration_ms\":5000,\"pattern\":\"blink\"}"));
            assert(actions@.map_values(|a: ActionDraft| a@) =~= rule_actions(rule));
            assemble(rule, AlertType::CargoTamper, AlertSeverity::Critical, "Cargo tampering detected - check cargo area", "ml_processor", actions)
        },
        AlertRule::TemperatureCritical => {
            actions.push(action(ActionType::ActivateRelay, "relay", "relay_1", "{\"activate\":true,\"duration_ms\":0}"));
            actions.push(action(ActionType::ShowOnDisplay, "display", "display_1", "{\"duration_ms\":10000,\"message\":\"TEMP CRITICAL - SHUTDOWN\"}"));
            assert(actions@.map_values(|a: ActionDraft| a@) =~= rule_actions(rule));
            assemble(rule, AlertType::HighTemperature, AlertSeverity::Emergency, "System temperature critical - shutdown imminent", "health_processor", actions)
        },
        AlertRule::TemperatureHigh => {
            actions.push(action(ActionType::ShowOnDisplay, "display", "display_1", "{\"duration_ms\":5000,\"message\":\"HIGH TEMP - REDUCE LOAD\"}"));
            assert(actions@.map_values(|a: ActionDraft| a@) =~= rule_actions(rule));
            assemble(rule, AlertType::HighTemperature, AlertSeverity::Critical, "System temperature high - reduce load", "health_processor", actions)
        },
        AlertRule::DiskCritical => {
            actions.push(action(ActionType::LogToServer, "log", "server", "{\"message\":\"Disk space critical - triggering cleanup\"}"));
            assert(actions@.map_values(|a: ActionDraft| a@) =~= rule_actions(rule));
            assemble(rule, AlertType::LowDiskSpace, AlertSeverity::Critical, "Disk space critical - deleting old data", "health_processor", actions)
        },
        AlertRule::DiskLow => {
            actions.push(action(ActionType::LogToServer, "log", "server", "{\"message\":\"Disk space low - monitoring\"}"));
            assert(actions@.map_values(|a: ActionDraft| a@) =~= rule_actions(rule));
            assemble(rule, AlertType::LowDiskSpace, AlertSeverity::Warning, "Disk space low - consider cleanup", "health_processor", actions)
        },
        AlertRule::CpuCritical => {
            actions.push(action(ActionType::LogToServer, "log", "server", "{\"message\":\"CPU usage critical - triggering degradation\"}"));
            assert(actions@.map_values(|a: ActionDraft| a@) =~= rule_actions(rule));
            assemble(rule, AlertType::HighCpuUsage, AlertSeverity::Critical, "CPU usage critical - system may become unresponsive", "health_processor", actions)
        },
        AlertRule::CpuHigh => {
            actions.push(action(ActionType::LogToServer, "log", "server", "{\"message\":\"CPU usage high - monitoring\"}"));
            assert(actions@.map_values(|a: ActionDraft| a@) =~= rule_actions(rule));
            assemble(rule, AlertType::HighCpuUsage, AlertSeverity::Warning, "CPU usage high - consider reducing load", "health_processor", actions)
        },
    }
}

/// Drafts for a sequence of fired rules, in the same order.
pub fn drafts_for(rules: &Vec<AlertRule>) -> (drafts: Vec<AlertDraft>)
    ensures
        drafts_view(drafts@) == rules_drafts(rules@),
{
    let mut drafts: Vec<AlertDraft> = Vec::new();
    let mut i: usize = 0;
    while i < rules.len()
        invariant
            i <= rules.len(),
            drafts_view(drafts@) == rules_drafts(rules@.take(i as int)),
        decreases rules.len() - i,
    {
        let d = draft_for(rules[i]);
        let ghost prev = drafts@;
        drafts.push(d);
        assert(rules@.take(i + 1) =~= rules@.take(i as int).push(rules@[i as int]));
        assert(drafts@ =~= prev.push(d));
        assert(drafts_view(prev.push(d)) =~= drafts_view(prev).push(d@));
        assert(rules_drafts(rules@.take(i as int).push(rules@[i as int])) =~= rules_drafts(
            rules@.take(i as int),
        ).push(rule_draft(rules@[i as int])));
        i = i + 1;
    }
    assert(rules@.take(i as int) =~= rules@);
    drafts
}

fn push_when(rules: &mut Vec<AlertRule>, c: bool, r: AlertRule)
    ensures
        final(rules)@ == old(rules)@ + when(c, r),
{
    if c {
        rules.push(r);
    }
    assert(final(rules)@ =~= old(rules)@ + when(c, r));
}

/// The sample with its accelerations replaced.
pub open spec fn with_accel(t: TelemetryData, x: i32, y: i32, z: i32) -> TelemetryData {
    TelemetryData {
        sensors: crate::models::telemetry::SensorData {
            imu: crate::models::telemetry::ImuData { accel_x: x, accel_y: y, accel_z: z, ..t.sensors.imu },
            ..t.sensors
        },
        ..t
    }
}

pub open spec fn raises(t: TelemetryData, r: AlertRule) -> bool {
    telemetry_rules(t).contains(r)
}

proof fn lemma_raises_harsh(t: TelemetryData)
    ensures
        raises(t, AlertRule::HarshBraking) == is_harsh_braking(t),
{
    let rules = telemetry_rules(t);
    if is_harsh_braking(t) {
        assert(rules[0] == AlertRule::HarshBraking);
    } else {
        assert forall|i: int| 0 <= i < rules.len() implies rules[i] != AlertRule::HarshBraking by {
            if is_rapid_acceleration(t) {
                if i == 0 {
                    assert(rules[0] == AlertRule::RapidAcceleration);
                }
            }
        }
    }
}

/// Harsh braking looks at the whole acceleration, not at one direction: the
/// rule is the same whichever way the three axes are exchanged, it fires
/// when any single axis exceeds 0.8 g either way, and it stays quiet while
/// every axis is within 0.46 g.
pub proof fn lemma_harsh_braking_is_total_acceleration(t: TelemetryData)
    ensures
        ({
            let (x, y, z) = (t.sensors.imu.accel_x, t.sensors.imu.accel_y, t.sensors.imu.accel_z);
            &&& raises(with_accel(t, y, x, z), AlertRule::HarshBraking) == raises(t, AlertRule::HarshBraking)
            &&& raises(with_accel(t, z, y, x), AlertRule::HarshBraking) == raises(t, AlertRule::HarshBraking)
            &&& raises(with_accel(t, x, z, y), AlertRule::HarshBraking) == raises(t, AlertRule::HarshBraking)
            &&& (x > 800 || x < -800 || y > 800 || y < -800 || z > 800 || z < -800) ==> raises(
                t,
                AlertRule::HarshBraking,
            )
            &&& (-460 <= x <= 460 && -460 <= y <= 460 && -460 <= z <= 460) ==> !raises(
                t,
                AlertRule::HarshBraking,
            )
        }),
{
    let (x, y, z) = (t.sensors.imu.accel_x, t.sensors.imu.accel_y, t.sensors.imu.accel_z);
    lemma_raises_harsh(t);
    lemma_raises_harsh(with_accel(t, y, x, z));
    lemma_raises_harsh(with_accel(t, z, y, x));
    lemma_raises_harsh(with_accel(t, x, z, y));
    let (a, b, c) = (x as int, y as int, z as int);
    assert(sq(a) >= 0 && sq(b) >= 0 && sq(c) >= 0) by (nonlinear_arith);
    assert((a > 800 || a < -800) ==> sq(a) > 640_000) by (nonlinear_arith);
    assert((b > 800 || b < -800) ==> sq(b) > 640_000) by (nonlinear_arith);
    assert((c > 800 || c < -800) ==> sq(c) > 640_000) by (nonlinear_arith);
    assert(-460 <= a <= 460 ==> sq(a) <= 211_600) by (nonlinear_arith);
    assert(-460 <= b <= 460 ==> sq(b) <= 211_600) by (nonlinear_arith);
    assert(-460 <= c <= 460 ==> sq(c) <= 211_600) by (nonlinear_arith);
}

/// Rules that fire on a telemetry sample.
pub fn telemetry_alert_rules(telemetry: &TelemetryData) -> (rules: Vec<AlertRule>)
    ensures
        rules@ == telemetry_rules(*telemetry),
{
    let ax = telemetry.sensors.imu.accel_x as i128;
    let ay = telemetry.sensors.imu.accel_y as i128;
    let az = telemetry.sensors.imu.accel_z as i128;
    assert(0 <= ax * ax <= 0x4000_0000_0000_0000) by (nonlinear_arith)
        requires -0x8000_0000 <= ax <= 0x7fff_ffff;
    assert(0 <= ay * ay <= 0x4000_0000_0000_0000) by (nonlinear_arith)
        requires -0x8000_0000 <= ay <= 0x7fff_ffff;
    assert(0 <= az * az <= 0x4000_0000_0000_0000) by (nonlinear_arith)
        requires -0x8000_0000 <= az <= 0x7fff_ffff;
    let magnitude_sq = ax * ax + ay * ay + az * az;
    let mut rules: Vec<AlertRule> = Vec::new();
    push_when(&mut rules, magnitude_sq > 640_000, AlertRule::HarshBraking);
    push_when(&mut rules, telemetry.sensors.imu.accel_x > 600, AlertRule::RapidAcceleration);
    push_when(&mut rules, telemetry.speed_kmh > 100_000, AlertRule::OverSpeeding);
    assert(rules@ =~= telemetry_rules(*telemetry));
    rules
}

/// Rules that fire on an inference.
pub fn ml_alert_rules(ml_event: &MlEvent) -> (rules: Vec<AlertRule>)
    ensures
        rules@ == ml_rules(*ml_event),
{
    let mut rules: Vec<AlertRule> = Vec::new();
    match &ml_event.result {
        MlResult::Drowsiness { is_drowsy, .. } => {
            push_when(&mut rules, *is_drowsy && ml_event.confidence > 800, AlertRule::DrowsyDriver);
        },
        MlResult::LaneDeparture { is_departing, deviation_pixels } => {
            push_when(
                &mut rules,
                *is_departing && *deviation_pixels > 50 && ml_event.confidence > 700,
                AlertRule::LaneDeparture,
            );
        },
        MlResult::CargoTamper { is_tampered, .. } => {
            push_when(&mut rules, *is_tampered && ml_event.confidence > 800, AlertRule::CargoTamper);
        },
        _ => {},
    }
    assert(rules@ =~= ml_rules(*ml_event));
    rules
}

/// Rules that fire on a health report.
pub fn health_alert_rules(health_status: &HealthStatus) -> (rules: Vec<AlertRule>)
    ensures
        rules@ == health_rules(*health_status),
{
    let r = &health_status.resources;
    let mut rules: Vec<AlertRule> = Vec::new();
    if r.temperature_c > 80_000 {
        rules.push(AlertRule::TemperatureCritical);
    } else if r.temperature_c > 70_000 {
        rules.push(AlertRule::TemperatureHigh);
    }
    if r.disk_percent > 95_000 {
        rules.push(AlertRule::DiskCritical);
    } else if r.disk_percent > 90_000 {
        rules.push(AlertRule::DiskLow);
    }
    if r.cpu_percent > 95_000 {
        rules.push(AlertRule::CpuCritical);
    } else if r.cpu_percent > 85_000 {
        rules.push(AlertRule::CpuHigh);
    }
    assert(rules@ =~= health_rules(*health_status));
    rules
}

/// The word that names a rule's alert kind inside alert identifiers.
pub open spec fn rule_slug(r: AlertRule) -> Seq<char> {
    match r {
        AlertRule::HarshBraking => "harsh_braking"@,
        AlertRule::RapidAcceleration => "rapid_acceleration"@,
        AlertRule::OverSpeeding => "overspeeding"@,
        AlertRule::DrowsyDriver => "drowsy_driver"@,
        AlertRule::LaneDeparture => "lane_departure"@,
        AlertRule::CargoTamper => "cargo_tamper"@,
        AlertRule::TemperatureCritical | AlertRule::TemperatureHigh => "high_temperature"@,
        AlertRule::DiskCritical | AlertRule::DiskLow => "low_disk_space"@,
        AlertRule::CpuCritical | AlertRule::CpuHigh => "high_cpu_usage"@,
    }
}

fn rule_slug_text(r: AlertRule) -> (s: &'static str)
    ensures
        s@ == rule_slug(r),
{
    match r {
        AlertRule::HarshBraking => "harsh_braking",
        AlertRule::RapidAcceleration => "rapid_acceleration",
        AlertRule::OverSpeeding => "overspeeding",
        AlertRule::DrowsyDriver => "drowsy_driver",
        AlertRule::LaneDeparture => "lane_departure",
        AlertRule::CargoTamper => "cargo_tamper",
        AlertRule::TemperatureCritical | AlertRule::TemperatureHigh => "high_temperature",
        AlertRule::DiskCritical | AlertRule::DiskLow => "low_disk_space",
        AlertRule::CpuCritical | AlertRule::CpuHigh => "high_cpu_usage",
    }
}

/// An issued action: a fresh `action-<uuid>-<suffix>` identifier, the
/// draft's command, not yet executed.
pub open spec fn issued_action(a: AlertAction, d: (ActionType, Seq<char>, Seq<char>, Seq<char>)) -> bool {
    &&& exists|u: u128| a.action_id@ == "action-"@ + #[trigger] uuid_hyphenated(u) + "-"@ + d.1
    &&& a.action_type == d.0
    &&& a.target@ == d.2
    &&& a.parameters@ == d.3
    &&& a.executed_at is None
    &&& !a.success
    &&& a.error is None
}

/// An alert issued from a draft for a truck at time `now`, with the given
/// context: `alert-<truck>-<slug>-<now>` as identifier, freshly triggered.
pub open spec fn issued_alert(
    alert: Alert,
    d: AlertDraftView,
    truck_id: u128,
    now: i64,
    context: Seq<char>,
) -> bool {
    &&& alert.alert_id@ == "alert-"@ + uuid_hyphenated(truck_id) + "-"@ + rule_slug(d.rule) + "-"@
        + signed_decimal(now as int)
    &&& alert.truck_id == truck_id
    &&& alert.alert_type == d.alert_type
    &&& alert.severity == d.severity
    &&& alert.message@ == d.message
    &&& alert.source@ == d.source
    &&& alert.context@ == context
    &&& alert.status == AlertStatus::Triggered
    &&& alert.triggered_at == now
    &&& alert.created_at == now
    &&& alert.updated_at == now
    &&& alert.acknowledged_at is None
    &&& alert.resolved_at is None
    &&& alert.actions@.len() == d.actions.len()
    &&& forall|i: int| 0 <= i < d.actions.len() ==> issued_action(#[trigger] alert.actions@[i], d.actions[i])
}

impl AlertDraft {
    /// Turns the draft into an alert for `truck_id` at `now` (nanoseconds
    /// since the Unix epoch), drawing fresh UUIDs for the alert and its
    /// actions. `context` is the JSON text describing the triggering reading.
    pub fn issue(&self, truck_id: u128, now: i64, context: String) -> (alert: Alert)
        ensures
            issued_alert(alert, self@, truck_id, now, context@),
    {
        let mut alert_id = String::from_str("alert-");
        let truck_text = uuid_text(truck_id);
        alert_id.append(truck_text.as_str());
        alert_id.append("-");
        alert_id.append(rule_slug_text(self.rule));
        alert_id.append("-");
        let now_text = i64_text(now);
        alert_id.append(now_text.as_str());
        let mut actions: Vec<AlertAction> = Vec::new();
        let mut i: usize = 0;
        while i < self.actions.len()
            invariant
                i <= self.actions.len(),
                actions@.len() == i,
                forall|j: int| 0 <= j < i ==> issued_action(#[trigger] actions@[j], self.actions@[j]@),
            decreases self.actions.len() - i,
        {
            let d = &self.actions[i];
            let u = new_uuid();
            let mut action_id = String::from_str("action-");
            let u_text = uuid_text(u);
            action_id.append(u_text.as_str());
            action_id.append("-");
            action_id.append(d.id_suffix.as_str());
            let a = AlertAction {
                action_id,
                action_type: d.action_type,
                target: d.target.clone(),
                parameters: d.parameters.clone(),
                executed_at: None,
                success: false,
                error: None,
            };
            assert(a.action_id@ == "action-"@ + uuid_hyphenated(u) + "-"@ + d.id_suffix@);
            actions.push(a);
            i = i + 1;
        }
        let alert = Alert {
            id: new_uuid(),
            alert_id,
            truck_id,
            alert_type: self.alert_type,
            severity: self.severity,
            message: self.message.clone(),
            triggered_at: now,
            acknowledged_at: None,
            resolved_at: None,
            source: self.source.clone(),
            context,
            actions,
            status: AlertStatus::Triggered,
            created_at: now,
            updated_at: now,
        };
        assert forall|j: int| 0 <= j < self@.actions.len() implies issued_action(
            #[trigger] alert.actions@[j],
            self@.actions[j],
        ) by {
            assert(self@.actions[j] == self.actions@[j]@);
        }
        alert
    }
}

/// An alert issued from a draft for a truck at `now`, with the context the
/// caller's `context` gives for the draft's rule.
pub open spec fn issued_with<F: Fn(AlertRule) -> String>(
    alert: Alert,
    d: AlertDraftView,
    truck_id: u128,
    now: i64,
    context: F,
) -> bool {
    exists|c: String| #[trigger] context.ensures((d.rule,), c) && issued_alert(alert, d, truck_id, now, c@)
}

/// Alerts issued, in order, from the given drafts for a truck at `now`.
pub open spec fn issued_alerts<F: Fn(AlertRule) -> String>(
    v: Seq<Alert>,
    ds: Seq<AlertDraftView>,
    truck_id: u128,
    now: i64,
    context: F,
) -> bool {
    &&& v.len() == ds.len()
    &&& forall|i: int| 0 <= i < v.len() ==> #[trigger] issued_with(v[i], ds[i], truck_id, now, context)
}

/// Issues each draft, in order, for `truck_id` at `now`; `context` writes
/// the JSON text that describes the triggering reading for a rule.
pub fn issue_drafts<F: Fn(AlertRule) -> String>(
    drafts: &Vec<AlertDraft>,
    truck_id: u128,
    now: i64,
    context: &F,
) -> (alerts: Vec<Alert>)
    requires
        forall|r: AlertRule| context.requires((r,)),
    ensures
        issued_alerts(alerts@, drafts_view(drafts@), truck_id, now, *context),
        forall|i: int|
            #![trigger alerts@[i]]
            0 <= i < alerts@.len() ==> alerts@[i].truck_id == truck_id && alerts@[i].status
                == AlertStatus::Triggered,
{
    let mut alerts: Vec<Alert> = Vec::new();
    let mut i: usize = 0;
    while i < drafts.len()
        invariant
            i <= drafts@.len(),
            forall|r: AlertRule| context.requires((r,)),
            alerts@.len() == i,
            forall|j: int|
                0 <= j < i ==> #[trigger] issued_with(alerts@[j], drafts@[j]@, truck_id, now, *context),
            forall|j: int|
                #![trigger alerts@[j]]
                0 <= j < i ==> alerts@[j].truck_id == truck_id && alerts@[j].status
                    == AlertStatus::Triggered,
        decreases drafts@.len() - i,
    {
        let d = &drafts[i];
        let c = context(d.rule);
        let alert = d.issue(truck_id, now, c);
        assert(issued_with(alert, d@, truck_id, now, *context));
        alerts.push(alert);
        i = i + 1;
    }
    assert forall|j: int| 0 <= j < alerts@.len() implies #[trigger] issued_with(
        alerts@[j],
        drafts_view(drafts@)[j],
        truck_id,
        now,
        *context,
    ) by {
        assert(drafts_view(drafts@)[j] == drafts@[j]@);
    }
    alerts
}

/// Applies the alerting policy to readings as they arrive.
pub struct AlertProcessor;

impl AlertProcessor {
    pub fn new() -> (p: Self) {
        AlertProcessor
    }

    /// Alerts a telemetry sample raises at `now`, for the sample's truck:
    /// harsh braking, rapid acceleration, overspeeding, each at most once and
    /// in that order. `context` writes the context of each rule's alert.
    pub fn process_telemetry<F: Fn(AlertRule) -> String>(
        &self,
        telemetry: &TelemetryData,
        now: i64,
        context: F,
    ) -> (alerts: Vec<Alert>)
        requires
            forall|r: AlertRule| context.requires((r,)),
        ensures
            issued_alerts(alerts@, rules_drafts(telemetry_rules(*telemetry)), telemetry.truck_id, now, context),
            forall|i: int|
                #![trigger alerts@[i]]
                0 <= i < alerts@.len() ==> alerts@[i].truck_id == telemetry.truck_id && alerts@[i].status
                    == AlertStatus::Triggered,
    {
        let rules = telemetry_alert_rules(telemetry);
        let drafts = drafts_for(&rules);
        issue_drafts(&drafts, telemetry.truck_id, now, &context)
    }

    /// Alerts an inference raises at `now`, for the inference's truck:
    /// drowsiness, lane departure or cargo tampering, at most one.
    pub fn process_ml_event<F: Fn(AlertRule) -> String>(
        &self,
        ml_event: &MlEvent,
        now: i64,
        context: F,
    ) -> (alerts: Vec<Alert>)
        requires
            forall|r: AlertRule| context.requires((r,)),
        ensures
            issued_alerts(alerts@, rules_drafts(ml_rules(*ml_event)), ml_event.truck_id, now, context),
            forall|i: int|
                #![trigger alerts@[i]]
                0 <= i < alerts@.len() ==> alerts@[i].truck_id == ml_event.truck_id && alerts@[i].status
                    == AlertStatus::Triggered,
    {
        let rules = ml_alert_rules(ml_event);
        let drafts = drafts_for(&rules);
        issue_drafts(&drafts, ml_event.truck_id, now, &context)
    }

    /// Alerts a health report raises at `now`, for the report's truck: at
    /// most one each for temperature, disk and CPU, the more severe tier
    /// taking precedence.
    pub fn process_health_status<F: Fn(AlertRule) -> String>(
        &self,
        health_status: &HealthStatus,
        now: i64,
        context: F,
    ) -> (alerts: Vec<Alert>)
        requires
            forall|r: AlertRule| context.requires((r,)),
        ensures
            issued_alerts(alerts@, rules_drafts(health_rules(*health_status)), health_status.truck_id, now, context),
            forall|i: int|
                #![trigger alerts@[i]]
                0 <= i < alerts@.len() ==> alerts@[i].truck_id == health_status.truck_id && alerts@[i].status
                    == AlertStatus::Triggered,
    {
        let rules = health_alert_rules(health_status);
        let drafts = drafts_for(&rules);
        issue_drafts(&drafts, health_status.truck_id, now, &context)
    }

    /// An alert that arrives already formed passes through unchanged.
    pub fn process_alert(&self, alert: Alert) -> (processed: Alert)
        ensures
            processed == alert,
    {
        alert
    }
}

} // verus!
