pub mod camera;
pub mod health;
pub mod ml;
pub mod ota;
pub mod sensor;

use vstd::prelude::*;
use vstd::arithmetic::div_mod::{lemma_fundamental_div_mod, lemma_mod_multiples_vanish};
use crate::simulator::config::{CameraConfig, TruckConfig};
use crate::simulator::types::{CameraData, OtaCommand, Position, TruckState};
use crate::util::random::{random_chance, random_in};
use crate::util::text::same_text;
use self::camera::{cargo_frame_fits, driver_frame_fits, front_frame_fits, CameraGenerator};
use self::health::{elapsed_since, health_status_fits, HealthGenerator};
use self::ml::{ml_events_fit, MlGenerator};
use self::ota::{ota_command_fits, OtaGenerator};
use self::sensor::{sensor_reading, SensorGenerator};

verus! {

/// Heading after turning by `delta`, both in thousandths of a degree,
/// brought back into `[0°, 360°)`.
pub open spec fn turned(heading: int, delta: int) -> int {
    (heading + delta) % 360_000
}

/// A speed held within 0 to 120 km/h.
pub open spec fn clamped_speed(v: int) -> int {
    if v < 0 {
        0
    } else if v > 120_000 {
        120_000
    } else {
        v
    }
}

/// The speed a scenario with a fixed speed rule leaves after one update:
/// braking hard sheds 5 km/h down to a stop, accelerating hard adds 3 km/h
/// up to 120 km/h, a sharp turn sheds 2 km/h but keeps (or brings) the
/// truck at 20 km/h or more. Other scenarios have no fixed rule.
pub open spec fn scripted_speed(speed: int, scenario: Seq<char>) -> Option<int> {
    if scenario == "emergency_braking"@ {
        Some(
            if speed - 5_000 > 0 {
                speed - 5_000
            } else {
                0
            },
        )
    } else if scenario == "rapid_acceleration"@ {
        Some(
            if speed + 3_000 < 120_000 {
                speed + 3_000
            } else {
                120_000
            },
        )
    } else if scenario == "sharp_turn"@ {
        Some(
            if speed - 2_000 > 20_000 {
                speed - 2_000
            } else {
                20_000
            },
        )
    } else {
        None
    }
}

/// The frames a truck's cameras take in a scenario, one for each camera
/// it carries.
pub open spec fn cameras_fit(c: CameraData, cfg: CameraConfig, scenario: Seq<char>, timestamp: u64) -> bool {
    &&& if cfg.front_camera {
        c.front_camera matches Some(f) && front_frame_fits(f, scenario, timestamp)
    } else {
        c.front_camera is None
    }
    &&& if cfg.driver_camera {
        c.driver_camera matches Some(f) && driver_frame_fits(f, scenario, timestamp)
    } else {
        c.driver_camera is None
    }
    &&& if cfg.cargo_camera {
        c.cargo_camera matches Some(f) && cargo_frame_fits(f, scenario, timestamp)
    } else {
        c.cargo_camera is None
    }
}

/// One simulated truck. Times are milliseconds on the simulator's monotonic
/// clock; position, speed and heading as in `TruckState`.
pub struct TruckSimulator {
    pub config: TruckConfig,
    pub sensor_generator: SensorGenerator,
    pub camera_generator: CameraGenerator,
    pub ml_generator: MlGenerator,
    pub health_generator: HealthGenerator,
    pub ota_generator: OtaGenerator,
    pub current_location: Position,
    pub current_speed: i64,
    pub current_heading: i64,
    pub current_scenario: String,
    pub scenario_duration_ms: u64,
    pub scenario_start_ms: u64,
    pub update_interval_ms: u64,
    pub last_update_ms: u64,
}

/// A report restating the truck's state at `timestamp`, with fresh sensor
/// and health readings.
pub open spec fn report_of(s: TruckState, t: TruckSimulator, now_ms: u64, timestamp: u64) -> bool {
    &&& s.truck_id@ == t.config.id@
    &&& s.timestamp == timestamp
    &&& s.location == t.current_location
    &&& s.speed_kmh == t.current_speed
    &&& s.heading == t.current_heading
    &&& s.scenario@ == t.current_scenario@
    &&& sensor_reading(
        s.sensors,
        t.current_location.0,
        t.current_location.1,
        t.current_speed,
        t.current_scenario@,
    )
    &&& health_status_fits(
        s.health_status,
        t.current_scenario@,
        elapsed_since(t.health_generator.scenario_start_ms, now_ms),
        t.health_generator.scenario_duration_ms as nat,
        timestamp,
    )
}

/// Where a move takes the truck: to `next_location`, unless it is standing
/// still or has no update interval, in which case it covers no distance and
/// stays where it is.
pub open spec fn destination(before: TruckSimulator, next_location: Position) -> Position {
    if before.current_speed == 0 || before.update_interval_ms == 0 {
        before.current_location
    } else {
        next_location
    }
}

/// The odds (numerator, denominator) that a move turns the truck, and the
/// range of the turn in thousandths of a degree: 1 in 10, by less than 30°
/// either way.
pub open spec fn turn_plan() -> ((u32, u32), (i64, i64)) {
    ((1, 10), (-30_000i64, 30_000i64))
}

/// The odds that a move outside the scripted scenarios changes the speed,
/// and the range of the change in thousandths of a km/h: 1 in 5, by less
/// than 2 km/h either way.
pub open spec fn drift_plan() -> ((u32, u32), (i64, i64)) {
    ((1, 5), (-2_000i64, 2_000i64))
}

/// The turn odds and range (see `turn_plan`).
pub fn turn_odds() -> (p: ((u32, u32), (i64, i64)))
    ensures
        p == turn_plan(),
{
    ((1, 10), (-30_000, 30_000))
}

/// The speed drift odds and range (see `drift_plan`).
pub fn drift_odds() -> (p: ((u32, u32), (i64, i64)))
    ensures
        p == drift_plan(),
{
    ((1, 5), (-2_000, 2_000))
}

/// One move of the truck: it stands at its destination, may have turned
/// by less than 30° either way, and its speed follows the scenario's rule,
/// or else may have drifted by less than 2 km/h within 0 to 120 km/h.
/// Nothing else changes.
pub open spec fn moved(before: TruckSimulator, after: TruckSimulator, next_location: Position) -> bool {
    &&& after == TruckSimulator {
        current_location: destination(before, next_location),
        current_heading: after.current_heading,
        current_speed: after.current_speed,
        ..before
    }
    &&& after.current_heading == before.current_heading || exists|d: int|
        -30_000 <= d < 30_000 && after.current_heading == #[trigger] turned(before.current_heading as int, d)
    &&& match scripted_speed(before.current_speed as int, before.current_scenario@) {
        Some(s) => after.current_speed == s,
        None => after.current_speed == before.current_speed || exists|d: int|
            -2_000 <= d < 2_000 && after.current_speed == #[trigger] clamped_speed(
                before.current_speed + d,
            ),
    }
}

/// One simulation step of a truck, from `before` to `after`, reporting
/// `r`: see `TruckSimulator::update`.
pub open spec fn stepped(
    before: TruckSimulator,
    after: TruckSimulator,
    r: (TruckState, Option<OtaCommand>),
    now_ms: u64,
    timestamp: u64,
    next_location: Position,
) -> bool {
    if elapsed_since(before.last_update_ms, now_ms) < before.update_interval_ms {
        &&& after == before
        &&& report_of(r.0, before, now_ms, timestamp)
        &&& r.0.cameras.front_camera is None
        &&& r.0.cameras.driver_camera is None
        &&& r.0.cameras.cargo_camera is None
        &&& r.0.ml_events@.len() == 0
        &&& r.1 is None
    } else {
        &&& moved(TruckSimulator { last_update_ms: now_ms, ..before }, after, next_location)
        &&& report_of(r.0, after, now_ms, timestamp)
        &&& cameras_fit(r.0.cameras, after.config.camera_config, after.current_scenario@, timestamp)
        &&& ml_events_fit(r.0.ml_events@, after.config.id@, after.current_scenario@, timestamp)
        &&& ota_command_fits(r.1, after.config.id@, after.current_scenario@, timestamp)
    }
}

/// The truck after switching to `scenario` for `duration_minutes` at
/// `now_ms`: see `TruckSimulator::set_scenario`.
pub open spec fn scenario_applied(
    before: TruckSimulator,
    after: TruckSimulator,
    scenario: Seq<char>,
    duration_minutes: u32,
    now_ms: u64,
) -> bool {
    &&& after == TruckSimulator {
        current_scenario: after.current_scenario,
        scenario_duration_ms: after.scenario_duration_ms,
        scenario_start_ms: now_ms,
        health_generator: after.health_generator,
        ..before
    }
    &&& after.current_scenario@ == scenario
    &&& after.scenario_duration_ms == duration_minutes as int * 60_000
    &&& after.health_generator.truck_id == before.health_generator.truck_id
    &&& after.health_generator.scenario_duration_ms == duration_minutes as int * 60_000
    &&& after.health_generator.scenario_start_ms == now_ms
}

/// A truck just created at `now_ms`: at its configured position and
/// speed, heading north, driving normally for ten minutes, with no health
/// scenario timed yet.
pub open spec fn started(t: TruckSimulator, update_interval_ms: u64, now_ms: u64) -> bool {
    &&& t.well_formed()
    &&& t.current_location == Position(t.config.initial_latitude, t.config.initial_longitude)
    &&& t.current_speed == t.config.initial_speed
    &&& t.current_heading == 0
    &&& t.current_scenario@ == "normal_driving"@
    &&& t.scenario_duration_ms == 600_000
    &&& t.scenario_start_ms == now_ms
    &&& t.update_interval_ms == update_interval_ms
    &&& t.last_update_ms == now_ms
    &&& t.health_generator.scenario_duration_ms == 0
    &&& t.health_generator.scenario_start_ms == now_ms
}

/// A truck standing still keeps its location when it moves.
pub proof fn lemma_stopped_truck_stays(before: TruckSimulator, after: TruckSimulator, next_location: Position)
    requires
        moved(before, after, next_location),
        before.current_speed == 0,
    ensures
        after.current_location == before.current_location,
{
}

/// A move keeps a truck at a legal speed (0 to 120 km/h) if it was at
/// one, and keeps its heading a compass heading (0° up to 360°).
pub proof fn lemma_move_keeps_speed_and_heading_legal(
    before: TruckSimulator,
    after: TruckSimulator,
    next_location: Position,
)
    requires
        moved(before, after, next_location),
        0 <= before.current_speed <= 120_000,
        0 <= before.current_heading < 360_000,
    ensures
        0 <= after.current_speed <= 120_000,
        0 <= after.current_heading < 360_000,
{
    if after.current_heading != before.current_heading {
        let d = choose|d: int|
            -30_000 <= d < 30_000 && after.current_heading == #[trigger] turned(
                before.current_heading as int,
                d,
            );
        assert(after.current_heading == turned(before.current_heading as int, d));
    }
    if scripted_speed(before.current_speed as int, before.current_scenario@) is None
        && after.current_speed != before.current_speed {
        let d = choose|d: int|
            -2_000 <= d < 2_000 && after.current_speed == #[trigger] clamped_speed(
                before.current_speed + d,
            );
        assert(after.current_speed == clamped_speed(before.current_speed + d));
    }
}

proof fn lemma_turn(h: int, d: int)
    ensures
        ((h % 360_000) + d) % 360_000 == turned(h, d),
{
    lemma_fundamental_div_mod(h, 360_000);
    lemma_mod_multiples_vanish(h / 360_000, (h % 360_000) + d, 360_000);
}

fn euclid_mod(v: i64) -> (r: i64)
    ensures
        r == v % 360_000,
{
    let a = v % 360_000;
    if a < 0 {
        a + 360_000
    } else {
        a
    }
}

impl TruckSimulator {
    /// Its generators all speak for the truck of the configuration.
    pub open spec fn well_formed(&self) -> bool {
        &&& self.sensor_generator.truck_id@ == self.config.id@
        &&& self.camera_generator.truck_id@ == self.config.id@
        &&& self.ml_generator.truck_id@ == self.config.id@
        &&& self.health_generator.truck_id@ == self.config.id@
        &&& self.ota_generator.truck_id@ == self.config.id@
    }

    /// A truck at its configured position and speed, heading north, driving
    /// normally for ten minutes from `now_ms`.
    pub fn new(config: TruckConfig, update_interval_ms: u64, now_ms: u64) -> (t: Self)
        ensures
            t.config == config,
            started(t, update_interval_ms, now_ms),
    {
        let id = config.id.as_str();
        let sensor_generator = SensorGenerator::new(id);
        let camera_generator = CameraGenerator::new(id);
        let ml_generator = MlGenerator::new(id);
        let health_generator = HealthGenerator::new(id, now_ms);
        let ota_generator = OtaGenerator::new(id);
        let current_location = Position(config.initial_latitude, config.initial_longitude);
        let current_speed = config.initial_speed;
        TruckSimulator {
            config,
            sensor_generator,
            camera_generator,
            ml_generator,
            health_generator,
            ota_generator,
            current_location,
            current_speed,
            current_heading: 0,
            current_scenario: String::from_str("normal_driving"),
            scenario_duration_ms: 600_000,
            scenario_start_ms: now_ms,
            update_interval_ms,
            last_update_ms: now_ms,
        }
    }

    /// Switches to a scenario lasting `duration_minutes` from `now_ms`.
    pub fn set_scenario(&mut self, scenario: &str, duration_minutes: u32, now_ms: u64)
        requires
            old(self).well_formed(),
        ensures
            final(self).well_formed(),
            scenario_applied(*old(self), *final(self), scenario@, duration_minutes, now_ms),
    {
        self.current_scenario = String::from_str(scenario);
        self.scenario_duration_ms = (duration_minutes as u64) * 60_000;
        self.scenario_start_ms = now_ms;
        self.health_generator.set_scenario(scenario, duration_minutes, now_ms);
    }

    /// Moves the truck to `next_location`, which the caller computes from
    /// the current position, speed, heading and update interval (a truck
    /// standing still, or without an update interval, stays put); then lets
    /// it turn now and then and sets its speed by the scenario.
    pub fn update_position(&mut self, next_location: Position)
        ensures
            moved(*old(self), *final(self), next_location),
    {
        proof {
            reveal_strlit("emergency_braking");
            reveal_strlit("rapid_acceleration");
            reveal_strlit("sharp_turn");
        }
        if self.current_speed != 0 && self.update_interval_ms != 0 {
            self.current_location = next_location;
        }
        let ((turn_n, turn_d), (turn_lo, turn_hi)) = turn_odds();
        if random_chance(turn_n, turn_d) {
            let d = random_in(turn_lo, turn_hi);
            let base = euclid_mod(self.current_heading);
            let h = euclid_mod(base + d);
            proof {
                lemma_turn(old(self).current_heading as int, d as int);
            }
            self.current_heading = h;
        }
        let speed = self.current_speed;
        if same_text(self.current_scenario.as_str(), "emergency_braking") {
            self.current_speed = if speed > 5_000 {
                speed - 5_000
            } else {
                0
            };
        } else if same_text(self.current_scenario.as_str(), "rapid_acceleration") {
            self.current_speed = if speed < 117_000 {
                speed + 3_000
            } else {
                120_000
            };
        } else if same_text(self.current_scenario.as_str(), "sharp_turn") {
            self.current_speed = if speed > 22_000 {
                speed - 2_000
            } else {
                20_000
            };
        } else {
            let ((drift_n, drift_d), (drift_lo, drift_hi)) = drift_odds();
            if random_chance(drift_n, drift_d) {
                let d = random_in(drift_lo, drift_hi);
                let s = if speed > 122_000 {
                    120_000
                } else if speed < -2_000 {
                    0
                } else {
                    let v = speed + d;
                    if v < 0 {
                        0
                    } else if v > 120_000 {
                        120_000
                    } else {
                        v
                    }
                };
                assert(s == clamped_speed(speed + d));
                self.current_speed = s;
            }
        }
    }

    /// The truck's state now, without moving it: fresh sensor and health
    /// readings, no frames and no inferences.
    pub fn get_current_state(&self, now_ms: u64, timestamp: u64) -> (s: TruckState)
        requires
            self.well_formed(),
        ensures
            report_of(s, *self, now_ms, timestamp),
            s.cameras.front_camera is None,
            s.cameras.driver_camera is None,
            s.cameras.cargo_camera is None,
            s.ml_events@.len() == 0,
    {
        let scenario = self.current_scenario.as_str();
        let sensors = self.sensor_generator.generate_sensor_data(
            self.current_location.0,
            self.current_location.1,
            self.current_speed,
            scenario,
        );
        let health_status = self.health_generator.generate_health_status(scenario, now_ms, timestamp);
        TruckState {
            truck_id: self.config.id.clone(),
            timestamp,
            location: self.current_location,
            speed_kmh: self.current_speed,
            heading: self.current_heading,
            scenario: self.current_scenario.clone(),
            sensors,
            cameras: CameraData { front_camera: None, driver_camera: None, cargo_camera: None },
            ml_events: Vec::new(),
            health_status,
        }
    }

    /// One simulation step at `now_ms`, reported at `timestamp`
    /// (nanoseconds since the Unix epoch). Before the update interval has
    /// passed since the last step, the truck stays put and reports its
    /// current state; otherwise it moves to `next_location`, and reports
    /// fresh readings, a frame from each camera it carries and its
    /// inferences, together with any over-the-air command the step issued.
    pub fn update(&mut self, now_ms: u64, timestamp: u64, next_location: Position) -> (r: (
        TruckState,
        Option<OtaCommand>,
    ))
        requires
            old(self).well_formed(),
        ensures
            final(self).well_formed(),
            stepped(*old(self), *final(self), r, now_ms, timestamp, next_location),
    {
        let elapsed: u64 = if now_ms >= self.last_update_ms {
            now_ms - self.last_update_ms
        } else {
            0
        };
        if elapsed < self.update_interval_ms {
            return (self.get_current_state(now_ms, timestamp), None);
        }
        self.last_update_ms = now_ms;
        self.update_position(next_location);
        let scenario = self.current_scenario.as_str();
        let sensors = self.sensor_generator.generate_sensor_data(
            self.current_location.0,
            self.current_location.1,
            self.current_speed,
            scenario,
        );
        let front_camera = if self.config.camera_config.front_camera {
            Some(self.camera_generator.generate_front_camera_frame(scenario, timestamp))
        } else {
            None
        };
        let driver_camera = if self.config.camera_config.driver_camera {
            Some(self.camera_generator.generate_driver_camera_frame(scenario, timestamp))
        } else {
            None
        };
        let cargo_camera = if self.config.camera_config.cargo_camera {
            Some(self.camera_generator.generate_cargo_camera_frame(scenario, timestamp))
        } else {
            None
        };
        let cameras = CameraData { front_camera, driver_camera, cargo_camera };
        let ml_events = self.ml_generator.generate_ml_events(scenario, timestamp);
        let health_status = self.health_generator.generate_health_status(scenario, now_ms, timestamp);
        let ota_command = self.ota_generator.generate_ota_command(scenario, timestamp);
        let state = TruckState {
            truck_id: self.config.id.clone(),
            timestamp,
            location: self.current_location,
            speed_kmh: self.current_speed,
            heading: self.current_heading,
            scenario: self.current_scenario.clone(),
            sensors,
            cameras,
            ml_events,
            health_status,
        };
        (state, ota_command)
    }
}

} // verus!
