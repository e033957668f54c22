use vstd::prelude::*;

verus! {

/// Hardware an inference ran on.
#[derive(Clone, Copy, Debug, PartialEq, Eq, Structural)]
pub enum HardwareType {
    Cpu,
    Cuda,
    OpenVino,
    Fallback,
}

/// Weather class reported by the weather model.
#[derive(Clone, Copy, Debug, PartialEq, Eq, Structural)]
pub enum WeatherType {
    Clear,
    Rain,
    Fog,
    Snow,
    Night,
}

/// Plate position in the frame as four coordinates, in thousandths.
#[derive(Clone, Copy, Debug)]
pub struct BoundingBox(pub i64, pub i64, pub i64, pub i64);

/// Outcome of one model inference. Ratios, scores, box coordinates and
/// visibility (m) are in thousandths.
#[derive(Clone, Debug)]
pub enum MlResult {
    Drowsiness { is_drowsy: bool, eye_closure_ratio: i64 },
    LaneDeparture { is_departing: bool, deviation_pixels: i32 },
    CargoTamper { is_tampered: bool, motion_score: i64 },
    LicensePlate { plate_text: String, bounding_box: BoundingBox },
    Weather { weather_type: WeatherType, visibility_m: i64 },
    Unknown,
}

/// Vehicle context at inference time: speed (km/h), acceleration (g) and
/// steering angle (degrees) in thousandths, coordinates in millionths of a
/// degree.
#[derive(Clone, Debug)]
pub struct SensorContext {
    pub speed_kmh: i64,
    pub acceleration: i64,
    pub steering_angle: i64,
    pub gps_lat: i64,
    pub gps_lon: i64,
    pub time_of_day: String,
}

/// Device-side details of an inference; percentages and temperature (°C) in
/// thousandths, the frame time in nanoseconds since the Unix epoch.
#[derive(Clone, Debug)]
pub struct MlEventMetadata {
    pub device_id: String,
    pub truck_id: String,
    pub route_id: String,
    pub driver_id: String,
    pub camera_id: String,
    pub frame_timestamp: i64,
    pub sensor_context: Option<SensorContext>,
    pub cpu_usage_percent: i64,
    pub gpu_usage_percent: i64,
    pub memory_used_bytes: u64,
    pub temperature_c: i64,
    pub model_checksum: String,
    pub retry_count: u32,
    pub fallback_reason: Option<String>,
}

/// One inference reported by a truck. Confidences and latency (ms) are in
/// thousandths; times in nanoseconds since the Unix epoch.
#[derive(Clone, Debug)]
pub struct MlEvent {
    pub id: u128,
    pub event_id: String,
    pub truck_id: u128,
    pub model_name: String,
    pub model_version: String,
    pub timestamp: i64,
    pub result: MlResult,
    pub confidence: i64,
    pub calibrated_confidence: i64,
    pub latency_ms: i64,
    pub hardware_used: HardwareType,
    pub metadata: MlEventMetadata,
    pub created_at: i64,
}

} // verus!
