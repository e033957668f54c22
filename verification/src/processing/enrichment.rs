use vstd::prelude::*;
use crate::models::health::HealthStatus;
use crate::models::telemetry::TelemetryData;
use crate::models::truck::Truck;

verus! {

/// Adds context to readings before they are processed.
pub struct EnrichmentProcessor;

/// The scenario label a truck gives its telemetry: make, model and year,
/// separated by spaces.
pub open spec fn truck_label(truck: Truck) -> Seq<char> {
    truck.make@ + " "@ + truck.model@ + " "@ + truck.year@
}

impl EnrichmentProcessor {
    pub fn new() -> (p: Self) {
        EnrichmentProcessor
    }

    /// Telemetry passes through unchanged.
    pub fn enrich_telemetry(&self, telemetry: TelemetryData) -> (enriched: TelemetryData)
        ensures
            enriched == telemetry,
    {
        telemetry
    }

    /// Health reports pass through unchanged.
    pub fn enrich_health_status(&self, health_status: HealthStatus) -> (enriched: HealthStatus)
        ensures
            enriched == health_status,
    {
        health_status
    }

    /// Labels the telemetry with the truck's make, model and year.
    pub fn add_truck_info(&self, telemetry: &mut TelemetryData, truck: &Truck)
        ensures
            final(telemetry).scenario matches Some(s) && s@ == truck_label(*truck),
            *final(telemetry) == (TelemetryData { scenario: final(telemetry).scenario, ..*old(telemetry) }),
    {
        let mut label = truck.make.clone();
        label.append(" ");
        label.append(truck.model.as_str());
        label.append(" ");
        label.append(truck.year.as_str());
        telemetry.scenario = Some(label);
    }

    /// Marks the position fix as good: ten satellites, fix quality 1.
    pub fn add_location_info(&self, telemetry: &mut TelemetryData)
        ensures
            final(telemetry).sensors.gps.satellites == 10,
            final(telemetry).sensors.gps.fix_quality == 1,
            final(telemetry).sensors.gps.latitude == old(telemetry).sensors.gps.latitude,
            final(telemetry).sensors.gps.longitude == old(telemetry).sensors.gps.longitude,
            final(telemetry).sensors.gps.altitude == old(telemetry).sensors.gps.altitude,
            final(telemetry).sensors.gps.speed_kmh == old(telemetry).sensors.gps.speed_kmh,
            final(telemetry).sensors.gps.heading == old(telemetry).sensors.gps.heading,
            final(telemetry).sensors.obd == old(telemetry).sensors.obd,
            final(telemetry).sensors.imu == old(telemetry).sensors.imu,
            final(telemetry).sensors.tpms == old(telemetry).sensors.tpms,
            *final(telemetry) == (TelemetryData { sensors: final(telemetry).sensors, ..*old(telemetry) }),
    {
        telemetry.sensors.gps.satellites = 10;
        telemetry.sensors.gps.fix_quality = 1;
    }
}

} // verus!
