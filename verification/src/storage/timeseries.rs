use vstd::prelude::*;
use crate::models::telemetry::TelemetryData;
use crate::util::ids::uuid_text;
use crate::util::text::uuid_hyphenated;

verus! {

/// Driving statistics of a truck over a period; speeds (km/h), averages,
/// distance (km) and fuel (l) in thousandths.
#[derive(Clone, Debug)]
pub struct TelemetryStatistics {
    pub truck_id: u128,
    pub start_time: i64,
    pub end_time: i64,
    pub avg_speed_kmh: i64,
    pub max_speed_kmh: i64,
    pub min_speed_kmh: i64,
    pub avg_rpm: i64,
    pub max_rpm: u16,
    pub min_rpm: u16,
    pub avg_coolant_temp: i64,
    pub max_coolant_temp: i8,
    pub min_coolant_temp: i8,
    pub avg_fuel_level: i64,
    pub min_fuel_level: u8,
    pub total_distance_km: i64,
    pub total_fuel_consumed_liters: i64,
    pub harsh_braking_events: i32,
    pub rapid_acceleration_events: i32,
    pub overspeeding_events: i32,
}

/// Statistics of a truck over a period. No query backs them yet: every
/// truck and period gets the same reference figures.
pub fn telemetry_statistics(truck_id: u128, start_time: i64, end_time: i64) -> (s: TelemetryStatistics)
    ensures
        s == (TelemetryStatistics {
            truck_id,
            start_time,
            end_time,
            avg_speed_kmh: 60_000,
            max_speed_kmh: 80_000,
            min_speed_kmh: 40_000,
            avg_rpm: 2_000_000,
            max_rpm: 3000,
            min_rpm: 1000,
            avg_coolant_temp: 85_000,
            max_coolant_temp: 95,
            min_coolant_temp: 75,
            avg_fuel_level: 75_000,
            min_fuel_level: 50,
            total_distance_km: 100_000,
            total_fuel_consumed_liters: 20_000,
            harsh_braking_events: 5,
            rapid_acceleration_events: 3,
            overspeeding_events: 2,
        }),
{
    TelemetryStatistics {
        truck_id,
        start_time,
        end_time,
        avg_speed_kmh: 60_000,
        max_speed_kmh: 80_000,
        min_speed_kmh: 40_000,
        avg_rpm: 2_000_000,
        max_rpm: 3000,
        min_rpm: 1000,
        avg_coolant_temp: 85_000,
        max_coolant_temp: 95,
        min_coolant_temp: 75,
        avg_fuel_level: 75_000,
        min_fuel_level: 50,
        total_distance_km: 100_000,
        total_fuel_consumed_liters: 20_000,
        harsh_braking_events: 5,
        rapid_acceleration_events: 3,
        overspeeding_events: 2,
    }
}

/// Tags of a telemetry point: the truck, and the scenario or `unknown`.
pub fn telemetry_tags(telemetry: &TelemetryData) -> (tags: (String, String))
    ensures
        tags.0@ == uuid_hyphenated(telemetry.truck_id),
        tags.1@ == (match telemetry.scenario {
            Some(s) => s@,
            None => "unknown"@,
        }),
{
    let truck = uuid_text(telemetry.truck_id);
    let scenario = match &telemetry.scenario {
        Some(s) => s.clone(),
        None => String::from_str("unknown"),
    };
    (truck, scenario)
}

} // verus!
