use vstd::prelude::*;

verus! {

/// Overall state a truck's edge device reports (`Normal` is the healthy
/// state).
#[derive(Clone, Copy, Debug, PartialEq, Eq, Structural)]
pub enum HealthStatusType {
    Normal,
    Warning,
    Critical,
    Degraded,
    ShutdownPending,
}

/// Severity of a device-side health alert.
#[derive(Clone, Copy, Debug, PartialEq, Eq, Structural)]
pub enum AlertSeverity {
    Info,
    Warning,
    Critical,
}

/// Remedial action the edge device can take.
#[derive(Clone, Copy, Debug, PartialEq, Eq, Structural)]
pub enum ActionType {
    ThrottleCameraFps,
    DisableMlModel,
    ReduceSensorRate,
    RotateWalEarly,
    DropCameraFrames,
    ReduceLogLevel,
    RebootSystem,
}

/// Resource usage of the edge device; percentages, temperature (°C) and load
/// averages in thousandths.
#[derive(Clone, Debug)]
pub struct ResourceUsage {
    pub cpu_percent: i64,
    pub cpu_cores: usize,
    pub memory_percent: i64,
    pub memory_used_mb: u64,
    pub memory_total_mb: u64,
    pub memory_available_mb: u64,
    pub swap_percent: i64,
    pub disk_percent: i64,
    pub disk_used_gb: u64,
    pub disk_total_gb: u64,
    pub disk_available_gb: u64,
    pub temperature_c: i64,
    pub thermal_throttling: bool,
    pub uptime_sec: u64,
    pub load_average: LoadAverage,
}

/// One-, five- and fifteen-minute load averages, in thousandths.
#[derive(Clone, Copy, Debug)]
pub struct LoadAverage(pub i64, pub i64, pub i64);

/// Latitude and longitude in millionths of a degree.
#[derive(Clone, Copy, Debug)]
pub struct GeoLocation(pub i64, pub i64);

/// State of one supervised task; CPU usage in thousandths of a percent.
#[derive(Clone, Debug)]
pub struct TaskStatus {
    pub name: String,
    pub is_alive: bool,
    pub last_seen_ms: u64,
    pub cpu_usage_percent: i64,
    pub memory_usage_mb: u64,
    pub restarts: u32,
    pub last_restart: Option<i64>,
}

/// Alert raised on the device itself.
#[derive(Clone, Debug)]
pub struct HealthAlert {
    pub alert_id: String,
    pub alert_type: String,
    pub severity: AlertSeverity,
    pub message: String,
    pub triggered_at: i64,
    pub source: String,
    pub recommended_action: String,
}

/// Action the device took; its parameters are JSON text.
#[derive(Clone, Debug)]
pub struct HealthAction {
    pub action_id: String,
    pub action_type: ActionType,
    pub target_module: String,
    pub parameters: String,
    pub executed_at: i64,
    pub success: bool,
    pub message: String,
}

/// Identity of the reporting device; location in millionths of a degree.
#[derive(Clone, Debug)]
pub struct HealthEventMetadata {
    pub device_id: String,
    pub version: String,
    pub hostname: String,
    pub ip_address: String,
    pub mac_address: String,
    pub location: Option<GeoLocation>,
    pub hardware_model: String,
}

/// One health report of a truck; times in nanoseconds since the Unix epoch.
#[derive(Clone, Debug)]
pub struct HealthStatus {
    pub id: u128,
    pub truck_id: u128,
    pub timestamp: i64,
    pub status: HealthStatusType,
    pub resources: ResourceUsage,
    pub tasks: Vec<TaskStatus>,
    pub alerts: Vec<HealthAlert>,
    pub actions_taken: Vec<HealthAction>,
    pub metadata: HealthEventMetadata,
    pub created_at: i64,
}

} // verus!
