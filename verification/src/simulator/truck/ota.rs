use vstd::prelude::*;
use crate::simulator::types::{CommandType, OtaCommand};
use crate::util::random::{random_chance, random_in};
use crate::util::text::{decimal, same_text, u64_text};

verus! {

/// The name a command type is written with.
pub open spec fn command_type_name(t: CommandType) -> Seq<char> {
    match t {
        CommandType::UpdateConfig => "UpdateConfig"@,
        CommandType::UpdateFirmware => "UpdateFirmware"@,
        CommandType::Reboot => "Reboot"@,
        CommandType::Shutdown => "Shutdown"@,
        CommandType::GetDiagnostics => "GetDiagnostics"@,
    }
}

/// Identifier of a command: `cmd-<truck>-<kind>-<timestamp>`.
pub open spec fn command_id(truck_id: Seq<char>, kind: Seq<char>, timestamp: u64) -> Seq<char> {
    "cmd-"@ + truck_id + "-"@ + kind + "-"@ + decimal(timestamp as nat)
}

/// Parameters that lighten the load of a failing system: cargo-tamper
/// detection off, cameras down to 10 frames per second.
pub open spec fn relief_parameters() -> Seq<char> {
    "{\"camera\":{\"fps\":10},\"ml_edge\":{\"enable_cargo_tamper\":false,\"enable_drowsiness\":true,\"enable_lane_departure\":true}}"@
}

/// Parameters of the firmware update sent to trucks in maintenance.
pub open spec fn firmware_parameters() -> Seq<char> {
    "{\"checksum\":\"sha256:deadbeef...\",\"url\":\"https://updates.example.com/firmware-2.1.0.bin\",\"version\":\"2.1.0\"}"@
}

/// Parameters of a full diagnostics request.
pub open spec fn diagnostics_parameters() -> Seq<char> {
    "{\"detail_level\":\"full\"}"@
}

/// The command, if any, that a scenario can produce at one instant: a
/// configuration change for a failing system, a firmware update in
/// maintenance, a diagnostics request in normal driving, and otherwise a
/// configuration change, reboot, shutdown or diagnostics request without
/// parameters.
pub open spec fn ota_command_fits(
    c: Option<OtaCommand>,
    truck_id: Seq<char>,
    scenario: Seq<char>,
    timestamp: u64,
) -> bool {
    match c {
        None => true,
        Some(cmd) => {
            &&& cmd.truck_id@ == truck_id
            &&& cmd.issued_at == timestamp
            &&& if scenario == "system_failure"@ {
                &&& cmd.command_type == CommandType::UpdateConfig
                &&& cmd.command_id@ == command_id(truck_id, "config"@, timestamp)
                &&& cmd.parameters@ == relief_parameters()
            } else if scenario == "maintenance"@ {
                &&& cmd.command_type == CommandType::UpdateFirmware
                &&& cmd.command_id@ == command_id(truck_id, "firmware"@, timestamp)
                &&& cmd.parameters@ == firmware_parameters()
            } else if scenario == "normal_driving"@ {
                &&& cmd.command_type == CommandType::GetDiagnostics
                &&& cmd.command_id@ == command_id(truck_id, "diagnostics"@, timestamp)
                &&& cmd.parameters@ == diagnostics_parameters()
            } else {
                &&& cmd.command_type != CommandType::UpdateFirmware
                &&& cmd.command_id@ == command_id(
                    truck_id,
                    command_type_name(cmd.command_type),
                    timestamp,
                )
                &&& cmd.parameters@ == "{}"@
            }
        },
    }
}

/// The kind of command a draw of `pick` chooses outside the named
/// scenarios: 0 a configuration change, 1 a reboot, 2 a shutdown, anything
/// else a diagnostics request.
pub open spec fn picked_command_type(pick: int) -> CommandType {
    if pick == 0 {
        CommandType::UpdateConfig
    } else if pick == 1 {
        CommandType::Reboot
    } else if pick == 2 {
        CommandType::Shutdown
    } else {
        CommandType::GetDiagnostics
    }
}

/// The odds, as numerator and denominator, that a scenario issues a
/// command at one instant: 3 in 10 for a failing system, 1 in 5 in
/// maintenance, 1 in 20 in normal driving, 1 in 100 otherwise.
pub open spec fn ota_odds(scenario: Seq<char>) -> (u32, u32) {
    if scenario == "system_failure"@ {
        (3, 10)
    } else if scenario == "maintenance"@ {
        (1, 5)
    } else if scenario == "normal_driving"@ {
        (1, 20)
    } else {
        (1, 100)
    }
}

/// The range `pick` is drawn from outside the named scenarios: one value
/// for each of the four kinds of command.
pub open spec fn pick_range() -> (i64, i64) {
    (0, 4)
}

/// The command given the draws: none unless `issue` was drawn; otherwise
/// the scenario's command (a configuration change for a failing system, a
/// firmware update in maintenance, a diagnostics request in normal
/// driving), and in any other scenario the command `pick` chooses, without
/// parameters.
pub open spec fn drawn_ota_command(
    c: Option<OtaCommand>,
    truck_id: Seq<char>,
    scenario: Seq<char>,
    timestamp: u64,
    issue: bool,
    pick: int,
) -> bool {
    if !issue {
        c is None
    } else {
        &&& c is Some
        &&& ota_command_fits(c, truck_id, scenario, timestamp)
        &&& scenario != "system_failure"@ && scenario != "maintenance"@ && scenario != "normal_driving"@
            ==> c->0.command_type == picked_command_type(pick)
    }
}

/// The odds that a scenario issues a command (see `ota_odds`).
pub fn issue_odds(scenario: &str) -> (o: (u32, u32))
    ensures
        o == ota_odds(scenario@),
{
    proof {
        reveal_strlit("system_failure");
        reveal_strlit("maintenance");
        reveal_strlit("normal_driving");
    }
    if same_text(scenario, "system_failure") {
        (3, 10)
    } else if same_text(scenario, "maintenance") {
        (1, 5)
    } else if same_text(scenario, "normal_driving") {
        (1, 20)
    } else {
        (1, 100)
    }
}

/// The range a command kind is picked from (see `pick_range`).
pub fn command_pick_range() -> (r: (i64, i64))
    ensures
        r == pick_range(),
{
    (0, 4)
}

/// The name a command type is written with.
pub fn command_type_text(t: CommandType) -> (s: &'static str)
    ensures
        s@ == command_type_name(t),
{
    match t {
        CommandType::UpdateConfig => "UpdateConfig",
        CommandType::UpdateFirmware => "UpdateFirmware",
        CommandType::Reboot => "Reboot",
        CommandType::Shutdown => "Shutdown",
        CommandType::GetDiagnostics => "GetDiagnostics",
    }
}

/// Produces the over-the-air commands sent to one truck.
pub struct OtaGenerator {
    pub truck_id: String,
}

fn command(truck_id: &str, kind: &str, command_type: CommandType, parameters: &str, timestamp: u64) -> (c: OtaCommand)
    ensures
        c.truck_id@ == truck_id@,
        c.issued_at == timestamp,
        c.command_type == command_type,
        c.command_id@ == command_id(truck_id@, kind@, timestamp),
        c.parameters@ == parameters@,
{
    let mut id = String::from_str("cmd-");
    id.append(truck_id);
    id.append("-");
    id.append(kind);
    id.append("-");
    let ts = u64_text(timestamp);
    id.append(ts.as_str());
    OtaCommand {
        command_id: id,
        truck_id: String::from_str(truck_id),
        command_type,
        parameters: String::from_str(parameters),
        issued_at: timestamp,
    }
}

impl OtaGenerator {
    pub fn new(truck_id: &str) -> (g: Self)
        ensures
            g.truck_id@ == truck_id@,
    {
        OtaGenerator { truck_id: String::from_str(truck_id) }
    }

    /// The command for the truck given the draws (see `drawn_ota_command`),
    /// issued at `timestamp`.
    pub fn command_for_draws(&self, scenario: &str, timestamp: u64, issue: bool, pick: i64) -> (c: Option<OtaCommand>)
        ensures
            drawn_ota_command(c, self.truck_id@, scenario@, timestamp, issue, pick as int),
    {
        proof {
            reveal_strlit("system_failure");
            reveal_strlit("maintenance");
            reveal_strlit("normal_driving");
        }
        if !issue {
            return None;
        }
        let id = self.truck_id.as_str();
        if same_text(scenario, "system_failure") {
            Some(
                command(
                    id,
                    "config",
                    CommandType::UpdateConfig,
                    "{\"camera\":{\"fps\":10},\"ml_edge\":{\"enable_cargo_tamper\":false,\"enable_drowsiness\":true,\"enable_lane_departure\":true}}",
                    timestamp,
                ),
            )
        } else if same_text(scenario, "maintenance") {
            Some(
                command(
                    id,
                    "firmware",
                    CommandType::UpdateFirmware,
                    "{\"checksum\":\"sha256:deadbeef...\",\"url\":\"https://updates.example.com/firmware-2.1.0.bin\",\"version\":\"2.1.0\"}",
                    timestamp,
                ),
            )
        } else if same_text(scenario, "normal_driving") {
            Some(command(id, "diagnostics", CommandType::GetDiagnostics, "{\"detail_level\":\"full\"}", timestamp))
        } else {
            let command_type = if pick == 0 {
                CommandType::UpdateConfig
            } else if pick == 1 {
                CommandType::Reboot
            } else if pick == 2 {
                CommandType::Shutdown
            } else {
                CommandType::GetDiagnostics
            };
            Some(command(id, command_type_text(command_type), command_type, "{}", timestamp))
        }
    }

    /// Occasionally a command for the truck, issued at `timestamp`
    /// (nanoseconds since the Unix epoch).
    pub fn generate_ota_command(&self, scenario: &str, timestamp: u64) -> (c: Option<OtaCommand>)
        ensures
            ota_command_fits(c, self.truck_id@, scenario@, timestamp),
            exists|issue: bool, pick: int|
                pick_range().0 <= pick < pick_range().1 && drawn_ota_command(
                    c,
                    self.truck_id@,
                    scenario@,
                    timestamp,
                    issue,
                    pick,
                ),
    {
        let named = same_text(scenario, "system_failure") || same_text(scenario, "maintenance") || same_text(
            scenario,
            "normal_driving",
        );
        let (numerator, denominator) = issue_odds(scenario);
        let issue = random_chance(numerator, denominator);
        let (lo, hi) = command_pick_range();
        let pick = if issue && !named {
            random_in(lo, hi)
        } else {
            lo
        };
        self.command_for_draws(scenario, timestamp, issue, pick)
    }
}

} // verus!
