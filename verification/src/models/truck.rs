use vstd::prelude::*;

verus! {

/// Operational state of a truck.
#[derive(Clone, Copy, Debug, PartialEq, Eq, Structural)]
pub enum TruckStatus {
    Online,
    Offline,
    Maintenance,
    Inactive,
}

/// A registered truck. Ids are UUIDs as 128-bit integers, times nanoseconds
/// since the Unix epoch, the location millionths of a degree.
#[derive(Clone, Debug)]
pub struct Truck {
    pub id: u128,
    pub truck_id: String,
    pub model: String,
    pub make: String,
    pub year: String,
    pub license_plate: String,
    pub vin: String,
    pub fleet_id: Option<u128>,
    pub driver_id: Option<u128>,
    pub status: TruckStatus,
    pub last_seen: i64,
    pub latitude: i64,
    pub longitude: i64,
    pub created_at: i64,
    pub updated_at: i64,
}

/// Request to register a truck.
#[derive(Clone, Debug)]
pub struct CreateTruckRequest {
    pub model: String,
    pub make: String,
    pub year: String,
    pub license_plate: String,
    pub vin: String,
    pub fleet_id: Option<u128>,
}

/// Request to change some fields of a truck; absent fields stay as they are.
#[derive(Clone, Debug)]
pub struct UpdateTruckRequest {
    pub model: Option<String>,
    pub make: Option<String>,
    pub year: Option<String>,
    pub license_plate: Option<String>,
    pub vin: Option<String>,
    pub fleet_id: Option<u128>,
    pub driver_id: Option<u128>,
    pub status: Option<TruckStatus>,
}

/// A truck as listed on dashboards; speed (km/h), heading (degrees) and
/// health score in thousandths.
#[derive(Clone, Debug)]
pub struct TruckSummary {
    pub id: u128,
    pub truck_id: String,
    pub model: String,
    pub make: String,
    pub license_plate: String,
    pub status: TruckStatus,
    pub last_seen: i64,
    pub latitude: i64,
    pub longitude: i64,
    pub speed_kmh: Option<i64>,
    pub heading: Option<i64>,
    pub active_alerts: i32,
    pub health_score: i64,
}

/// One trip; distances (km), speeds (km/h) and fuel (l) in thousandths,
/// locations in millionths of a degree.
#[derive(Clone, Debug)]
pub struct TripSummary {
    pub id: u128,
    pub start_time: i64,
    pub end_time: i64,
    pub start_latitude: i64,
    pub start_longitude: i64,
    pub end_latitude: i64,
    pub end_longitude: i64,
    pub distance_km: i64,
    pub duration_minutes: i32,
    pub average_speed_kmh: i64,
    pub max_speed_kmh: i64,
    pub fuel_consumed_liters: i64,
    pub events_count: i32,
    pub alerts_count: i32,
}

/// One maintenance intervention; the cost in thousandths.
#[derive(Clone, Debug)]
pub struct MaintenanceRecord {
    pub id: u128,
    pub maintenance_type: String,
    pub description: String,
    pub performed_at: i64,
    pub next_due_date: Option<i64>,
    pub cost: i64,
    pub performed_by: String,
    pub mileage: i32,
}

} // verus!
