use vstd::prelude::*;
use std::collections::HashMap;

verus! {

/// Part of the truck software an update replaces.
#[derive(Clone, Copy, Debug, PartialEq, Eq, Structural)]
pub enum UpdateTarget {
    Agent,
    Model,
    Config,
    Firmware,
}

/// How urgently an update should be applied.
#[derive(Clone, Copy, Debug, PartialEq, Eq, Structural)]
pub enum UpdatePriority {
    Critical,
    High,
    Medium,
    Low,
}

/// Descriptive data of an update.
#[derive(Clone, Debug)]
pub struct UpdateMetadata {
    pub description: String,
    pub author: String,
    pub release_notes: String,
    pub compatibility: Vec<String>,
    pub estimated_apply_time_sec: u32,
}

/// Progress of an update on a truck.
#[derive(Clone, Copy, Debug, PartialEq, Eq, Structural)]
pub enum OtaStatus {
    Pending,
    Downloading,
    Verifying,
    Applying,
    Rollback,
    Success,
    Failed,
}

/// An over-the-air update for a truck or a fleet. Ids are UUIDs as 128-bit
/// integers, times nanoseconds since the Unix epoch, progress thousandths of
/// a percent.
#[derive(Clone, Debug)]
pub struct OtaUpdate {
    pub id: u128,
    pub update_id: String,
    pub truck_id: Option<u128>,
    pub fleet_id: Option<u128>,
    pub version: String,
    pub target: UpdateTarget,
    pub url: String,
    pub checksum: String,
    pub signature: String,
    pub size_bytes: u64,
    pub priority: UpdatePriority,
    pub requires_reboot: bool,
    pub deadline: Option<i64>,
    pub metadata: UpdateMetadata,
    pub status: OtaStatus,
    pub progress_percent: i64,
    pub started_at: Option<i64>,
    pub completed_at: Option<i64>,
    pub last_error: Option<String>,
    pub created_at: i64,
    pub updated_at: i64,
}

/// Kind of a remote command.
#[derive(Clone, Copy, Debug, PartialEq, Eq, Structural)]
pub enum CommandType {
    Reboot,
    Shutdown,
    RestartService,
    GetDiagnostics,
    UpdateConfig,
    RunHealthCheck,
    CaptureSnapshot,
    FlushWAL,
}

/// Progress of a remote command.
#[derive(Clone, Copy, Debug, PartialEq, Eq, Structural)]
pub enum CommandStatus {
    Pending,
    Executing,
    Success,
    Failed,
    Timeout,
    Cancelled,
}

/// A command sent to a truck or fleet; parameters and result are JSON text.
#[derive(Clone, Debug)]
pub struct RemoteCommand {
    pub id: u128,
    pub command_id: String,
    pub truck_id: Option<u128>,
    pub fleet_id: Option<u128>,
    pub command_type: CommandType,
    pub parameters: String,
    pub issued_at: i64,
    pub deadline: Option<i64>,
    pub requires_ack: bool,
    pub status: CommandStatus,
    pub result: Option<String>,
    pub error: Option<String>,
    pub completed_at: Option<i64>,
    pub created_at: i64,
    pub updated_at: i64,
}

/// Counts of updates, overall and by target, priority and status.
#[derive(Clone, Debug)]
pub struct OtaStats {
    pub total_updates: i64,
    pub pending_updates: i64,
    pub in_progress_updates: i64,
    pub successful_updates: i64,
    pub failed_updates: i64,
    pub rollback_updates: i64,
    pub by_target: HashMap<String, i64>,
    pub by_priority: HashMap<String, i64>,
    pub by_status: HashMap<String, i64>,
    pub last_24_hours: i64,
    pub last_7_days: i64,
    pub last_30_days: i64,
}

} // verus!
