use vstd::prelude::*;

verus! {

/// Daily figures of one truck. The date counts days since 1970-01-01;
/// distances (km), fuel (l), speeds (km/h), hours, percentages and the
/// temperature (°C) are in thousandths.
#[derive(Clone, Debug)]
pub struct DailyStats {
    pub truck_id: u128,
    pub date: i32,
    pub total_distance_km: i64,
    pub total_fuel_consumed_liters: i64,
    pub average_speed_kmh: i64,
    pub max_speed_kmh: i64,
    pub driving_hours: i64,
    pub idle_hours: i64,
    pub harsh_braking_count: i32,
    pub rapid_acceleration_count: i32,
    pub overspeeding_count: i32,
    pub drowsy_driver_alerts: i32,
    pub lane_departure_alerts: i32,
    pub cargo_tamper_alerts: i32,
    pub average_cpu_percent: i64,
    pub average_memory_percent: i64,
    pub average_disk_percent: i64,
    pub average_temperature_c: i64,
}

/// Summarises readings for dashboards.
pub struct AggregationProcessor;

impl AggregationProcessor {
    pub fn new() -> (p: Self) {
        AggregationProcessor
    }

    /// Daily figures for a truck. No aggregate store backs them yet: every
    /// truck and day gets the same reference figures.
    pub fn calculate_daily_stats(&self, truck_id: u128, date: i32) -> (stats: DailyStats)
        ensures
            stats == (DailyStats {
                truck_id,
                date,
                total_distance_km: 500_000,
                total_fuel_consumed_liters: 100_000,
                average_speed_kmh: 60_000,
                max_speed_kmh: 90_000,
                driving_hours: 8_500,
                idle_hours: 1_500,
                harsh_braking_count: 5,
                rapid_acceleration_count: 3,
                overspeeding_count: 2,
                drowsy_driver_alerts: 1,
                lane_departure_alerts: 2,
                cargo_tamper_alerts: 0,
                average_cpu_percent: 45_000,
                average_memory_percent: 60_000,
                average_disk_percent: 70_000,
                average_temperature_c: 45_000,
            }),
    {
        DailyStats {
            truck_id,
            date,
            total_distance_km: 500_000,
            total_fuel_consumed_liters: 100_000,
            average_speed_kmh: 60_000,
            max_speed_kmh: 90_000,
            driving_hours: 8_500,
            idle_hours: 1_500,
            harsh_braking_count: 5,
            rapid_acceleration_count: 3,
            overspeeding_count: 2,
            drowsy_driver_alerts: 1,
            lane_departure_alerts: 2,
            cargo_tamper_alerts: 0,
            average_cpu_percent: 45_000,
            average_memory_percent: 60_000,
            average_disk_percent: 70_000,
            average_temperature_c: 45_000,
        }
    }
}

} // verus!
