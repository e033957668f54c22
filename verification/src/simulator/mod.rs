pub mod config;
pub mod error;
pub mod protocol;
pub mod scenario;
pub mod truck;
pub mod types;

use vstd::prelude::*;
use crate::util::text::{zero_padded, zero_padded_text};
use self::config::{CameraConfig, MlConfig, SensorConfig, SimulationConfig, SimulatorConfig, TruckConfig};
use self::scenario::{registered, truck_scenario, ScenarioManager};
use self::truck::{scenario_applied, started, stepped, TruckSimulator};
use self::types::{OtaCommand, Position, TruckState};

verus! {

/// The `i`-th (from zero) default truck of a fleet with no trucks
/// configured: `TRK-0001` onwards, a Model-X starting 0.001° north-east of
/// the previous one at 60 km/h, all cameras on, every model but plate
/// reading running.
pub open spec fn default_truck(c: TruckConfig, sim: SimulationConfig, i: int) -> bool {
    &&& c.id@ == "TRK-"@ + zero_padded((i + 1) as nat, 4)
    &&& c.model@ == "Model-X"@
    &&& c.initial_latitude == sim.base_latitude + i * 1000
    &&& c.initial_longitude == sim.base_longitude + i * 1000
    &&& c.initial_speed == 60_000
    &&& c.sensor_config == SensorConfig {
        gps_update_rate_hz: 10,
        obd_update_rate_hz: 10,
        imu_update_rate_hz: 100,
        tpms_update_rate_hz: 1,
    }
    &&& c.camera_config.front_camera
    &&& c.camera_config.driver_camera
    &&& c.camera_config.cargo_camera
    &&& c.camera_config.resolution@ == "1280x720"@
    &&& c.camera_config.fps == 15
    &&& c.ml_config == MlConfig {
        drowsiness_detection: true,
        lane_departure_detection: true,
        cargo_tamper_detection: true,
        license_plate_detection: false,
    }
}

/// A fleet of simulated trucks driven through the configured scenarios.
pub struct Simulator {
    config: SimulatorConfig,
    trucks: Vec<TruckSimulator>,
    scenario_manager: ScenarioManager,
}

fn default_truck_config(sim: &SimulationConfig, i: usize) -> (c: TruckConfig)
    requires
        i < 1_000_000_000,
        -1_000_000_000_000_000 <= sim.base_latitude <= 1_000_000_000_000_000,
        -1_000_000_000_000_000 <= sim.base_longitude <= 1_000_000_000_000_000,
    ensures
        default_truck(c, *sim, i as int),
{
    let mut id = String::from_str("TRK-");
    let digits = zero_padded_text((i + 1) as u64, 4);
    id.append(digits.as_str());
    let offset: i64 = (i as i64) * 1000;
    TruckConfig {
        id,
        model: String::from_str("Model-X"),
        initial_latitude: sim.base_latitude + offset,
        initial_longitude: sim.base_longitude + offset,
        initial_speed: 60_000,
        sensor_config: SensorConfig {
            gps_update_rate_hz: 10,
            obd_update_rate_hz: 10,
            imu_update_rate_hz: 100,
            tpms_update_rate_hz: 1,
        },
        camera_config: CameraConfig {
            front_camera: true,
            driver_camera: true,
            cargo_camera: true,
            resolution: String::from_str("1280x720"),
            fps: 15,
        },
        ml_config: MlConfig {
            drowsiness_detection: true,
            lane_departure_detection: true,
            cargo_tamper_detection: true,
            license_plate_detection: false,
        },
    }
}

impl Simulator {
    #[verifier::type_invariant]
    spec fn consistent(&self) -> bool {
        &&& self.scenario_manager.well_formed()
        &&& forall|i: int| 0 <= i < self.trucks@.len() ==> #[trigger] self.trucks@[i].well_formed()
    }

    /// The configuration the fleet was built from.
    pub closed spec fn configuration(&self) -> SimulatorConfig {
        self.config
    }

    /// The trucks, in order.
    pub closed spec fn fleet(&self) -> Seq<TruckSimulator> {
        self.trucks@
    }

    /// The scenarios trucks are driven through.
    pub closed spec fn scenarios(&self) -> ScenarioManager {
        self.scenario_manager
    }

    /// Builds the fleet at `now_ms`: one truck per configured truck, or, when
    /// none is configured, `num_trucks` default trucks; and registers the
    /// configured scenarios.
    pub fn new(config: SimulatorConfig, now_ms: u64) -> (s: Self)
        requires
            config.trucks@.len() > 0 || (config.simulation.num_trucks <= 1_000_000_000
                && -1_000_000_000_000_000 <= config.simulation.base_latitude
                <= 1_000_000_000_000_000 && -1_000_000_000_000_000
                <= config.simulation.base_longitude <= 1_000_000_000_000_000),
        ensures
            s.configuration() == config,
            s.scenarios().well_formed(),
            s.scenarios()@ == registered(config.scenarios@),
            config.trucks@.len() > 0 ==> s.fleet().len() == config.trucks@.len(),
            config.trucks@.len() == 0 ==> s.fleet().len() == config.simulation.num_trucks,
            forall|i: int|
                0 <= i < s.fleet().len() ==> #[trigger] started(
                    s.fleet()[i],
                    config.simulation.update_interval_ms,
                    now_ms,
                ) && (if config.trucks@.len() > 0 {
                    s.fleet()[i].config == config.trucks@[i]
                } else {
                    default_truck(s.fleet()[i].config, config.simulation, i)
                }),
    {
        let interval = config.simulation.update_interval_ms;
        let mut trucks: Vec<TruckSimulator> = Vec::new();
        let mut i: usize = 0;
        while i < config.trucks.len()
            invariant
                i <= config.trucks@.len(),
                trucks@.len() == i,
                interval == config.simulation.update_interval_ms,
                forall|j: int|
                    0 <= j < i ==> #[trigger] started(trucks@[j], interval, now_ms)
                        && trucks@[j].config == config.trucks@[j],
            decreases config.trucks@.len() - i,
        {
            let truck = TruckSimulator::new(config.trucks[i].duplicate(), interval, now_ms);
            trucks.push(truck);
            i = i + 1;
        }
        if trucks.len() == 0 {
            let n = config.simulation.num_trucks;
            let mut k: usize = 0;
            while k < n
                invariant
                    k <= n,
                    n == config.simulation.num_trucks,
                    config.trucks@.len() == 0,
                    n <= 1_000_000_000,
                    -1_000_000_000_000_000 <= config.simulation.base_latitude <= 1_000_000_000_000_000,
                    -1_000_000_000_000_000 <= config.simulation.base_longitude <= 1_000_000_000_000_000,
                    trucks@.len() == k,
                    interval == config.simulation.update_interval_ms,
                    forall|j: int|
                        0 <= j < k ==> #[trigger] started(trucks@[j], interval, now_ms) && default_truck(
                            trucks@[j].config,
                            config.simulation,
                            j,
                        ),
                decreases n - k,
            {
                let c = default_truck_config(&config.simulation, k);
                let truck = TruckSimulator::new(c, interval, now_ms);
                trucks.push(truck);
                k = k + 1;
            }
        }
        assert forall|j: int| #![trigger trucks@[j]] 0 <= j < trucks@.len() implies started(
            trucks@[j],
            interval,
            now_ms,
        ) && (if config.trucks@.len() > 0 {
            trucks@[j].config == config.trucks@[j]
        } else {
            default_truck(trucks@[j].config, config.simulation, j)
        }) && trucks@[j].well_formed() by {}
        let scenario_manager = ScenarioManager::new(&config);
        Simulator { config, trucks, scenario_manager }
    }

    pub fn truck_count(&self) -> (n: usize)
        ensures
            n == self.fleet().len(),
    {
        self.trucks.len()
    }

    pub fn truck(&self, i: usize) -> (t: &TruckSimulator)
        requires
            i < self.fleet().len(),
        ensures
            *t == self.fleet()[i as int],
    {
        &self.trucks[i]
    }

    pub fn config(&self) -> (c: &SimulatorConfig)
        ensures
            *c == self.configuration(),
    {
        &self.config
    }

    pub fn scenario_manager(&self) -> (m: &ScenarioManager)
        ensures
            *m == self.scenarios(),
    {
        &self.scenario_manager
    }

    /// One tick for the truck at `index`: picks a scenario, starts it on the
    /// truck and steps the truck (moving it to `next_location` if its
    /// update is due). Nothing happens when no scenario is configured.
    pub fn step_truck(&mut self, index: usize, now_ms: u64, timestamp: u64, next_location: Position) -> (r:
        Option<(TruckState, Option<OtaCommand>)>)
        requires
            index < old(self).fleet().len(),
        ensures
            final(self).configuration() == old(self).configuration(),
            final(self).scenarios() == old(self).scenarios(),
            final(self).fleet().len() == old(self).fleet().len(),
            forall|j: int|
                0 <= j < old(self).fleet().len() && j != index ==> #[trigger] final(self).fleet()[j]
                    == old(self).fleet()[j],
            r is None <==> old(self).scenarios().scenarios@.len() == 0,
            r is None ==> final(self).fleet()[index as int] == old(self).fleet()[index as int],
            r matches Some(out) ==> exists|k: int, mid: TruckSimulator|
                #![trigger old(self).scenarios().selectable(k), mid.well_formed()]
                old(self).scenarios().selectable(k) && mid.well_formed() && scenario_applied(
                    old(self).fleet()[index as int],
                    mid,
                    truck_scenario(old(self).scenarios().scenarios@[k].kind),
                    old(self).scenarios().scenarios@[k].config.duration_minutes,
                    now_ms,
                ) && stepped(mid, final(self).fleet()[index as int], out, now_ms, timestamp, next_location),
    {
        proof {
            use_type_invariant(&*self);
        }
        let mut trucks: Vec<TruckSimulator> = Vec::new();
        std::mem::swap(&mut trucks, &mut self.trucks);
        let ghost before = trucks@;
        let result = match self.scenario_manager.select_scenario() {
            Some(scenario) => {
                assert(trucks@[index as int].well_formed());
                let out = scenario.update_truck(&mut trucks[index], 0, now_ms, timestamp, next_location);
                Some(out)
            },
            None => None,
        };
        assert forall|j: int| 0 <= j < trucks@.len() implies #[trigger] trucks@[j].well_formed() by {
            if j != index {
                assert(before[j].well_formed());
            }
        }
        self.trucks = trucks;
        result
    }
}

} // verus!
