use vstd::prelude::*;
use crate::models::telemetry::{CameraFrameRef, FrameMetadata, TelemetryData, TelemetrySummary};
use crate::models::truck::Truck;
use crate::util::ids::uuid_text;
use crate::util::text::uuid_hyphenated;

verus! {

/// At-a-glance summary of a telemetry sample: position, motion, engine and
/// the four tyres (front left, front right, rear left, rear right).
pub open spec fn summary_of_sample(s: TelemetrySummary, t: TelemetryData) -> bool {
    &&& s.truck_id == t.truck_id
    &&& s.last_timestamp == t.timestamp
    &&& s.last_latitude == t.latitude
    &&& s.last_longitude == t.longitude
    &&& s.last_speed_kmh == t.speed_kmh
    &&& s.last_heading == t.heading
    &&& s.last_rpm == t.sensors.obd.rpm
    &&& s.last_coolant_temp == t.sensors.obd.coolant_temp
    &&& s.last_fuel_level == t.sensors.obd.fuel_level
    &&& s.last_accel_x == t.sensors.imu.accel_x
    &&& s.last_accel_y == t.sensors.imu.accel_y
    &&& s.last_accel_z == t.sensors.imu.accel_z
    &&& s.tire_pressures@ == seq![
        t.sensors.tpms.front_left.pressure_psi,
        t.sensors.tpms.front_right.pressure_psi,
        t.sensors.tpms.rear_left.pressure_psi,
        t.sensors.tpms.rear_right.pressure_psi,
    ]
    &&& s.tire_temperatures@ == seq![
        t.sensors.tpms.front_left.temperature_c,
        t.sensors.tpms.front_right.temperature_c,
        t.sensors.tpms.rear_left.temperature_c,
        t.sensors.tpms.rear_right.temperature_c,
    ]
}

/// The summary of the latest sample of a truck.
pub fn telemetry_summary(latest: &TelemetryData) -> (s: TelemetrySummary)
    ensures
        summary_of_sample(s, *latest),
{
    let tpms = &latest.sensors.tpms;
    let s = TelemetrySummary {
        truck_id: latest.truck_id,
        last_timestamp: latest.timestamp,
        last_latitude: latest.latitude,
        last_longitude: latest.longitude,
        last_speed_kmh: latest.speed_kmh,
        last_heading: latest.heading,
        last_rpm: latest.sensors.obd.rpm,
        last_coolant_temp: latest.sensors.obd.coolant_temp,
        last_fuel_level: latest.sensors.obd.fuel_level,
        last_accel_x: latest.sensors.imu.accel_x,
        last_accel_y: latest.sensors.imu.accel_y,
        last_accel_z: latest.sensors.imu.accel_z,
        tire_pressures: [
            tpms.front_left.pressure_psi,
            tpms.front_right.pressure_psi,
            tpms.rear_left.pressure_psi,
            tpms.rear_right.pressure_psi,
        ],
        tire_temperatures: [
            tpms.front_left.temperature_c,
            tpms.front_right.temperature_c,
            tpms.rear_left.temperature_c,
            tpms.rear_right.temperature_c,
        ],
    };
    assert(s.tire_pressures@ =~= seq![
        tpms.front_left.pressure_psi,
        tpms.front_right.pressure_psi,
        tpms.rear_left.pressure_psi,
        tpms.rear_right.pressure_psi,
    ]);
    assert(s.tire_temperatures@ =~= seq![
        tpms.front_left.temperature_c,
        tpms.front_right.temperature_c,
        tpms.rear_left.temperature_c,
        tpms.rear_right.temperature_c,
    ]);
    s
}

/// The truck after a telemetry sample taken at `timestamp` reached the
/// server at `now`: it was last seen then and there.
pub fn located_truck(truck: Truck, latitude: i64, longitude: i64, timestamp: i64, now: i64) -> (t: Truck)
    ensures
        t == (Truck { last_seen: timestamp, latitude, longitude, updated_at: now, ..truck }),
{
    Truck { last_seen: timestamp, latitude, longitude, updated_at: now, ..truck }
}

/// Storage path of a camera frame:
/// `trucks/<truck>/camera/<camera>/<frame><ending>`.
pub open spec fn frame_path(truck_id: u128, camera_type: Seq<char>, frame_id: u128, ending: Seq<char>) -> Seq<char> {
    "trucks/"@ + uuid_hyphenated(truck_id) + "/camera/"@ + camera_type + "/"@ + uuid_hyphenated(frame_id)
        + ending
}

fn build_frame_path(truck_id: u128, camera_type: &str, frame_id: u128, ending: &str) -> (p: String)
    ensures
        p@ == frame_path(truck_id, camera_type@, frame_id, ending@),
{
    let mut p = String::from_str("trucks/");
    let t = uuid_text(truck_id);
    p.append(t.as_str());
    p.append("/camera/");
    p.append(camera_type);
    p.append("/");
    let f = uuid_text(frame_id);
    p.append(f.as_str());
    p.append(ending);
    p
}

/// Where a frame is stored: the image and its thumbnail.
pub fn camera_frame_paths(truck_id: u128, camera_type: &str, frame_id: u128) -> (paths: (String, String))
    ensures
        paths.0@ == frame_path(truck_id, camera_type@, frame_id, ".jpg"@),
        paths.1@ == frame_path(truck_id, camera_type@, frame_id, "_thumb.jpg"@),
{
    (
        build_frame_path(truck_id, camera_type, frame_id, ".jpg"),
        build_frame_path(truck_id, camera_type, frame_id, "_thumb.jpg"),
    )
}

/// Reference to a freshly stored frame: 1280x720 JPEG key frame of the
/// stored size.
pub fn stored_frame_ref(
    frame_id: u128,
    now: i64,
    url: String,
    thumbnail_url: String,
    size_bytes: u64,
    metadata: FrameMetadata,
) -> (r: CameraFrameRef)
    ensures
        r.frame_id == frame_id,
        r.timestamp == now,
        r.url == url,
        r.thumbnail_url == Some(thumbnail_url),
        r.width == 1280,
        r.height == 720,
        r.format@ == "jpeg"@,
        r.size_bytes == size_bytes,
        r.is_keyframe,
        r.metadata == metadata,
{
    CameraFrameRef {
        frame_id,
        timestamp: now,
        url,
        thumbnail_url: Some(thumbnail_url),
        width: 1280,
        height: 720,
        format: String::from_str("jpeg"),
        size_bytes,
        is_keyframe: true,
        metadata,
    }
}

} // verus!
