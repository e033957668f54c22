use vstd::prelude::*;
use crate::models::ota::{CommandStatus, OtaStatus, OtaUpdate, RemoteCommand};

verus! {

/// Success, failure and rollback end an update.
pub open spec fn is_final_status(s: OtaStatus) -> bool {
    s == OtaStatus::Success || s == OtaStatus::Failed || s == OtaStatus::Rollback
}

/// The update after a progress report at `now`: new status, progress and
/// error; the completion time is set when the status ends the update and
/// kept otherwise.
pub fn progressed_update(
    update: OtaUpdate,
    status: OtaStatus,
    progress_percent: i64,
    last_error: Option<String>,
    now: i64,
) -> (u: OtaUpdate)
    ensures
        u == (OtaUpdate {
            status,
            progress_percent,
            last_error,
            updated_at: now,
            completed_at: if is_final_status(status) {
                Some(now)
            } else {
                update.completed_at
            },
            ..update
        }),
{
    let done = match status {
        OtaStatus::Success | OtaStatus::Failed | OtaStatus::Rollback => true,
        _ => false,
    };
    let completed_at = if done {
        Some(now)
    } else {
        update.completed_at
    };
    OtaUpdate { status, progress_percent, last_error, updated_at: now, completed_at, ..update }
}

/// The command after its outcome was reported at `now`; it counts as
/// completed whatever the status.
pub fn reported_command(
    command: RemoteCommand,
    status: CommandStatus,
    result: Option<String>,
    error: Option<String>,
    now: i64,
) -> (c: RemoteCommand)
    ensures
        c == (RemoteCommand {
            status,
            result,
            error,
            completed_at: Some(now),
            updated_at: now,
            ..command
        }),
{
    RemoteCommand { status, result, error, completed_at: Some(now), updated_at: now, ..command }
}

} // verus!
