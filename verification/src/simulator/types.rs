use vstd::prelude::*;

verus! {

/// A point on the map, latitude then longitude, in millionths of a degree.
#[derive(Clone, Copy, Debug, PartialEq, Eq, Structural)]
pub struct Position(pub i64, pub i64);

/// Everything one truck reports at one instant. Times are nanoseconds
/// since the Unix epoch; speed (km/h) and heading (degrees) in thousandths.
#[derive(Clone, Debug)]
pub struct TruckState {
    pub truck_id: String,
    pub timestamp: u64,
    pub location: Position,
    pub speed_kmh: i64,
    pub heading: i64,
    pub scenario: String,
    pub sensors: SensorData,
    pub cameras: CameraData,
    pub ml_events: Vec<MlEvent>,
    pub health_status: HealthStatus,
}

/// All sensor groups of one sample.
#[derive(Clone, Debug)]
pub struct SensorData {
    pub gps: GpsData,
    pub obd: ObdData,
    pub imu: ImuData,
    pub tpms: TpmsData,
}

/// Satellite fix: coordinates in millionths of a degree; altitude (m),
/// speed (km/h) and heading (degrees) in thousandths.
#[derive(Clone, Copy, Debug, PartialEq, Eq, Structural)]
pub struct GpsData {
    pub latitude: i64,
    pub longitude: i64,
    pub altitude: i64,
    pub speed_kmh: i64,
    pub heading: i64,
    pub satellites: u8,
    pub fix_quality: u8,
}

/// Engine readings from the diagnostics port.
#[derive(Clone, Copy, Debug, PartialEq, Eq, Structural)]
pub struct ObdData {
    pub rpm: u16,
    pub speed_kmh: u8,
    pub coolant_temp: i8,
    pub fuel_level: u8,
    pub engine_load: u8,
    pub throttle_pos: u8,
}

/// Accelerations in thousandths of g, rotation rates in thousandths of a
/// degree per second.
#[derive(Clone, Copy, Debug, PartialEq, Eq, Structural)]
pub struct ImuData {
    pub accel_x: i64,
    pub accel_y: i64,
    pub accel_z: i64,
    pub gyro_x: i64,
    pub gyro_y: i64,
    pub gyro_z: i64,
}

/// The four tyres.
#[derive(Clone, Copy, Debug, PartialEq, Eq, Structural)]
pub struct TpmsData {
    pub front_left: TireSensor,
    pub front_right: TireSensor,
    pub rear_left: TireSensor,
    pub rear_right: TireSensor,
}

/// One tyre: pressure (psi) and temperature (°C) in thousandths.
#[derive(Clone, Copy, Debug, PartialEq, Eq, Structural)]
pub struct TireSensor {
    pub pressure_psi: i64,
    pub temperature_c: i64,
    pub battery_percent: u8,
    pub alert: bool,
}

/// The frames the truck's cameras took, where it carries them.
#[derive(Clone, Debug)]
pub struct CameraData {
    pub front_camera: Option<CameraFrame>,
    pub driver_camera: Option<CameraFrame>,
    pub cargo_camera: Option<CameraFrame>,
}

/// An uncompressed frame: `data` holds `width * height` pixels, row by
/// row, three bytes (red, green, blue) each.
#[derive(Clone, Debug)]
pub struct CameraFrame {
    pub timestamp: u64,
    pub width: u32,
    pub height: u32,
    pub format: String,
    pub data: Vec<u8>,
    pub is_keyframe: bool,
    pub metadata: FrameMetadata,
}

/// Capture conditions: gain (dB), temperature (°C) and speed (km/h) in
/// thousandths, coordinates in millionths of a degree.
#[derive(Clone, Copy, Debug, PartialEq, Eq, Structural)]
pub struct FrameMetadata {
    pub exposure_us: Option<u32>,
    pub gain_db: Option<i64>,
    pub temperature_c: Option<i64>,
    pub gps_lat: Option<i64>,
    pub gps_lon: Option<i64>,
    pub speed_kmh: Option<i64>,
}

/// One inference of an edge model. Confidence in thousandths (of 1),
/// latency in thousandths of a millisecond.
#[derive(Clone, Debug)]
pub struct MlEvent {
    pub event_id: String,
    pub model_name: String,
    pub timestamp: u64,
    pub result: MlResult,
    pub confidence: i64,
    pub latency_ms: i64,
}

/// Box around a detected plate: x, y, width, height as thousandths of the
/// frame size.
#[derive(Clone, Copy, Debug, PartialEq, Eq, Structural)]
pub struct PlateBox(pub i64, pub i64, pub i64, pub i64);

/// What an edge model found. Ratios and scores in thousandths.
#[derive(Clone, Debug)]
pub enum MlResult {
    Drowsiness { is_drowsy: bool, eye_closure_ratio: i64 },
    LaneDeparture { is_departing: bool, deviation_pixels: i32 },
    CargoTamper { is_tampered: bool, motion_score: i64 },
    LicensePlate { plate_text: String, bounding_box: PlateBox },
}

/// Health of the edge device; percentages and temperature (°C) in
/// thousandths.
#[derive(Clone, Debug)]
pub struct HealthStatus {
    pub cpu_percent: i64,
    pub memory_percent: i64,
    pub disk_percent: i64,
    pub temperature_c: i64,
    pub network_quality: NetworkQuality,
    pub alerts: Vec<HealthAlert>,
}

/// Link quality: latency (ms), loss (%) and bandwidth (kbit/s) in
/// thousandths.
#[derive(Clone, Copy, Debug, PartialEq, Eq, Structural)]
pub struct NetworkQuality {
    pub latency_ms: i64,
    pub packet_loss_percent: i64,
    pub bandwidth_kbps: i64,
}

/// A warning the edge device raises about itself.
#[derive(Clone, Debug)]
pub struct HealthAlert {
    pub alert_type: String,
    pub severity: AlertSeverity,
    pub message: String,
    pub timestamp: u64,
}

/// How serious a device alert is.
#[derive(Clone, Copy, Debug, PartialEq, Eq, Structural)]
pub enum AlertSeverity {
    Info,
    Warning,
    Critical,
}

/// A command sent over the air to a truck; its parameters as JSON text.
#[derive(Clone, Debug)]
pub struct OtaCommand {
    pub command_id: String,
    pub truck_id: String,
    pub command_type: CommandType,
    pub parameters: String,
    pub issued_at: u64,
}

/// What an over-the-air command asks the truck to do.
#[derive(Clone, Copy, Debug, PartialEq, Eq, Structural)]
pub enum CommandType {
    UpdateConfig,
    UpdateFirmware,
    Reboot,
    Shutdown,
    GetDiagnostics,
}

} // verus!
