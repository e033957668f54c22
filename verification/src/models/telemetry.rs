use vstd::prelude::*;

verus! {

/// Satellite position fix. Latitude and longitude are in millionths of a
/// degree; altitude (m), speed (km/h) and heading (degrees) in thousandths.
#[derive(Clone, Debug)]
pub struct GpsData {
    pub latitude: i64,
    pub longitude: i64,
    pub altitude: i64,
    pub speed_kmh: i64,
    pub heading: i64,
    pub satellites: u8,
    pub fix_quality: u8,
}

/// Engine readings from the on-board diagnostics port.
#[derive(Clone, Debug)]
pub struct ObdData {
    pub rpm: u16,
    pub speed_kmh: u8,
    pub coolant_temp: i8,
    pub fuel_level: u8,
    pub engine_load: u8,
    pub throttle_pos: u8,
}

/// Inertial readings: accelerations in thousandths of g, rotation rates in
/// thousandths of a degree per second.
#[derive(Clone, Debug)]
pub struct ImuData {
    pub accel_x: i32,
    pub accel_y: i32,
    pub accel_z: i32,
    pub gyro_x: i32,
    pub gyro_y: i32,
    pub gyro_z: i32,
}

/// One tyre: pressure (psi) and temperature (°C) in thousandths.
#[derive(Clone, Debug)]
pub struct TireSensor {
    pub pressure_psi: i64,
    pub temperature_c: i64,
    pub battery_percent: u8,
    pub alert: bool,
}

/// Tyre pressure monitoring for the four wheels.
#[derive(Clone, Debug)]
pub struct TpmsData {
    pub front_left: TireSensor,
    pub front_right: TireSensor,
    pub rear_left: TireSensor,
    pub rear_right: TireSensor,
}

/// All sensor groups of one telemetry sample.
#[derive(Clone, Debug)]
pub struct SensorData {
    pub gps: GpsData,
    pub obd: ObdData,
    pub imu: ImuData,
    pub tpms: TpmsData,
}

/// Capture conditions of a camera frame; real values in thousandths,
/// coordinates in millionths of a degree.
#[derive(Clone, Debug)]
pub struct FrameMetadata {
    pub exposure_us: Option<u32>,
    pub gain_db: Option<i64>,
    pub temperature_c: Option<i64>,
    pub gps_lat: Option<i64>,
    pub gps_lon: Option<i64>,
    pub speed_kmh: Option<i64>,
}

/// Reference to a stored camera frame. Times are nanoseconds since the Unix
/// epoch.
#[derive(Clone, Debug)]
pub struct CameraFrameRef {
    pub frame_id: u128,
    pub timestamp: i64,
    pub url: String,
    pub thumbnail_url: Option<String>,
    pub width: u32,
    pub height: u32,
    pub format: String,
    pub size_bytes: u64,
    pub is_keyframe: bool,
    pub metadata: FrameMetadata,
}

/// The three camera slots of a truck.
#[derive(Clone, Debug)]
pub struct CameraData {
    pub front_camera: Option<CameraFrameRef>,
    pub driver_camera: Option<CameraFrameRef>,
    pub cargo_camera: Option<CameraFrameRef>,
}

/// One telemetry sample of a truck. Ids are UUIDs as 128-bit integers;
/// times are nanoseconds since the Unix epoch; the location is in millionths
/// of a degree; speed (km/h) and heading (degrees) in thousandths.
#[derive(Clone, Debug)]
pub struct TelemetryData {
    pub id: u128,
    pub truck_id: u128,
    pub timestamp: i64,
    pub latitude: i64,
    pub longitude: i64,
    pub speed_kmh: i64,
    pub heading: i64,
    pub sensors: SensorData,
    pub cameras: Option<CameraData>,
    pub scenario: Option<String>,
    pub created_at: i64,
}

/// Latest readings of a truck at a glance; units as in `TelemetryData`.
#[derive(Clone, Debug)]
pub struct TelemetrySummary {
    pub truck_id: u128,
    pub last_timestamp: i64,
    pub last_latitude: i64,
    pub last_longitude: i64,
    pub last_speed_kmh: i64,
    pub last_heading: i64,
    pub last_rpm: u16,
    pub last_coolant_temp: i8,
    pub last_fuel_level: u8,
    pub last_accel_x: i32,
    pub last_accel_y: i32,
    pub last_accel_z: i32,
    pub tire_pressures: [i64; 4],
    pub tire_temperatures: [i64; 4],
}

} // verus!
