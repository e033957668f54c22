use vstd::prelude::*;

verus! {

/// Everything the simulator is started with.
#[derive(Clone, Debug)]
pub struct SimulatorConfig {
    pub server: ServerConfig,
    pub simulation: SimulationConfig,
    pub scenarios: Vec<ScenarioConfig>,
    pub trucks: Vec<TruckConfig>,
}

/// Where the simulator's own endpoints listen.
#[derive(Clone, Debug)]
pub struct ServerConfig {
    pub bind_address: String,
    pub metrics_port: u16,
    pub mqtt_port: u16,
    pub http_port: u16,
    pub websocket_port: u16,
}

/// Fleet-wide simulation settings. The base position is in millionths of a
/// degree and the route radius in metres (thousandths of a kilometre).
#[derive(Clone, Debug)]
pub struct SimulationConfig {
    pub num_trucks: usize,
    pub update_interval_ms: u64,
    pub enable_mqtt: bool,
    pub enable_http: bool,
    pub enable_websocket: bool,
    pub base_latitude: i64,
    pub base_longitude: i64,
    pub route_radius_km: i64,
}

/// One driving scenario: its name, how likely it is to be picked (in
/// thousandths), how long it lasts, and its parameters as JSON text.
#[derive(Clone, Debug)]
pub struct ScenarioConfig {
    pub name: String,
    pub description: String,
    pub probability: u32,
    pub duration_minutes: u32,
    pub parameters: String,
}

/// One simulated truck. Position in millionths of a degree, speed in
/// thousandths of a km/h.
#[derive(Clone, Debug)]
pub struct TruckConfig {
    pub id: String,
    pub model: String,
    pub initial_latitude: i64,
    pub initial_longitude: i64,
    pub initial_speed: i64,
    pub sensor_config: SensorConfig,
    pub camera_config: CameraConfig,
    pub ml_config: MlConfig,
}

/// Sampling rates of the sensor groups.
#[derive(Clone, Debug)]
pub struct SensorConfig {
    pub gps_update_rate_hz: u32,
    pub obd_update_rate_hz: u32,
    pub imu_update_rate_hz: u32,
    pub tpms_update_rate_hz: u32,
}

/// Which cameras a truck carries, and how they record.
#[derive(Clone, Debug)]
pub struct CameraConfig {
    pub front_camera: bool,
    pub driver_camera: bool,
    pub cargo_camera: bool,
    pub resolution: String,
    pub fps: u32,
}

/// Which edge models a truck runs.
#[derive(Clone, Debug)]
pub struct MlConfig {
    pub drowsiness_detection: bool,
    pub lane_departure_detection: bool,
    pub cargo_tamper_detection: bool,
    pub license_plate_detection: bool,
}

impl ScenarioConfig {
    /// A field-for-field copy.
    pub fn duplicate(&self) -> (c: Self)
        ensures
            c == *self,
    {
        ScenarioConfig {
            name: self.name.clone(),
            description: self.description.clone(),
            probability: self.probability,
            duration_minutes: self.duration_minutes,
            parameters: self.parameters.clone(),
        }
    }
}

impl TruckConfig {
    /// A field-for-field copy.
    pub fn duplicate(&self) -> (c: Self)
        ensures
            c == *self,
    {
        TruckConfig {
            id: self.id.clone(),
            model: self.model.clone(),
            initial_latitude: self.initial_latitude,
            initial_longitude: self.initial_longitude,
            initial_speed: self.initial_speed,
            sensor_config: SensorConfig {
                gps_update_rate_hz: self.sensor_config.gps_update_rate_hz,
                obd_update_rate_hz: self.sensor_config.obd_update_rate_hz,
                imu_update_rate_hz: self.sensor_config.imu_update_rate_hz,
                tpms_update_rate_hz: self.sensor_config.tpms_update_rate_hz,
            },
            camera_config: CameraConfig {
                front_camera: self.camera_config.front_camera,
                driver_camera: self.camera_config.driver_camera,
                cargo_camera: self.camera_config.cargo_camera,
                resolution: self.camera_config.resolution.clone(),
                fps: self.camera_config.fps,
            },
            ml_config: MlConfig {
                drowsiness_detection: self.ml_config.drowsiness_detection,
                lane_departure_detection: self.ml_config.lane_departure_detection,
                cargo_tamper_detection: self.ml_config.cargo_tamper_detection,
                license_plate_detection: self.ml_config.license_plate_detection,
            },
        }
    }
}

} // verus!
