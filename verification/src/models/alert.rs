use vstd::prelude::*;

verus! {

/// Kind of an alert raised for a truck.
#[derive(Clone, Copy, Debug, PartialEq, Eq, Structural)]
pub enum AlertType {
    DrowsyDriver,
    LaneDeparture,
    CargoTamper,
    LicensePlateMatch,
    WeatherHazard,
    HighTemperature,
    LowDiskSpace,
    HighCpuUsage,
    NetworkFailure,
    SensorFailure,
    HarshBraking,
    RapidAcceleration,
    SeatbeltNotFastened,
    DoorOpenWhileMoving,
    OverSpeeding,
    UpdateAvailable,
    UpdateFailed,
    RollbackTriggered,
    ConfigError,
}

/// How urgent an alert is.
#[derive(Clone, Copy, Debug, PartialEq, Eq, Structural)]
pub enum AlertSeverity {
    Info,
    Warning,
    Critical,
    Emergency,
}

/// Actuator or channel an alert action drives.
#[derive(Clone, Copy, Debug, PartialEq, Eq, Structural)]
pub enum ActionType {
    TriggerBuzzer,
    FlashLed,
    ShowOnDisplay,
    SendCanMessage,
    ActivateRelay,
    LogToServer,
    SendSms,
}

/// Lifecycle state of an alert.
#[derive(Clone, Copy, Debug, PartialEq, Eq, Structural)]
pub enum AlertStatus {
    Triggered,
    Acknowledged,
    Resolved,
    Suppressed,
}

/// A command for an actuator, attached to an alert. `parameters` is JSON
/// text; the execution time is in nanoseconds since the Unix epoch.
#[derive(Debug)]
pub struct AlertAction {
    pub action_id: String,
    pub action_type: ActionType,
    pub target: String,
    pub parameters: String,
    pub executed_at: Option<i64>,
    pub success: bool,
    pub error: Option<String>,
}

/// An alert about a truck. Ids are UUIDs as 128-bit integers, times are
/// nanoseconds since the Unix epoch, and `context` is JSON text.
#[derive(Debug)]
pub struct Alert {
    pub id: u128,
    pub alert_id: String,
    pub truck_id: u128,
    pub alert_type: AlertType,
    pub severity: AlertSeverity,
    pub message: String,
    pub triggered_at: i64,
    pub acknowledged_at: Option<i64>,
    pub resolved_at: Option<i64>,
    pub source: String,
    pub context: String,
    pub actions: Vec<AlertAction>,
    pub status: AlertStatus,
    pub created_at: i64,
    pub updated_at: i64,
}

} // verus!
