use vstd::prelude::*;
use crate::simulator::types::{GpsData, ImuData, ObdData, SensorData, TireSensor, TpmsData};
use crate::util::random::random_in;
use crate::util::text::same_text;

verus! {

/// The whole-km/h speed the diagnostics port reports: the speed truncated,
/// and held within `0..=255`.
pub open spec fn obd_speed(speed_kmh: i64) -> int {
    if speed_kmh < 0 {
        0
    } else if speed_kmh / 1000 > 255 {
        255
    } else {
        speed_kmh / 1000
    }
}

/// Engine readings a scenario can produce: fixed values while braking hard,
/// accelerating hard or failing, otherwise readings that vary around a
/// cruising baseline (higher revs above 80 km/h).
pub open spec fn obd_fits(obd: ObdData, speed_kmh: i64, scenario: Seq<char>) -> bool {
    &&& obd.speed_kmh == obd_speed(speed_kmh)
    &&& if scenario == "emergency_braking"@ {
        obd.rpm == 2000 && obd.coolant_temp == 95 && obd.fuel_level == 75 && obd.engine_load == 80
            && obd.throttle_pos == 20
    } else if scenario == "rapid_acceleration"@ {
        obd.rpm == 4000 && obd.coolant_temp == 90 && obd.fuel_level == 75 && obd.engine_load == 90
            && obd.throttle_pos == 90
    } else if scenario == "system_failure"@ {
        obd.rpm == 1000 && obd.coolant_temp == 110 && obd.fuel_level == 75 && obd.engine_load == 30
            && obd.throttle_pos == 10
    } else {
        let base: int = if speed_kmh > 80_000 {
            2500
        } else {
            1500
        };
        &&& base - 500 <= obd.rpm < base + 500
        &&& 80 <= obd.coolant_temp < 90
        &&& 70 <= obd.fuel_level < 80
        &&& 30 <= obd.engine_load < 70
        &&& 10 <= obd.throttle_pos < 50
    }
}

/// Inertial readings a scenario can produce: a fixed acceleration while
/// braking, accelerating or turning hard, otherwise small variations around
/// gravity; rotation rates anywhere within ±1 °/s.
pub open spec fn imu_fits(imu: ImuData, scenario: Seq<char>) -> bool {
    &&& if scenario == "emergency_braking"@ {
        imu.accel_x == -800 && imu.accel_y == 100 && imu.accel_z == 980
    } else if scenario == "rapid_acceleration"@ {
        imu.accel_x == 600 && imu.accel_y == 100 && imu.accel_z == 980
    } else if scenario == "sharp_turn"@ {
        imu.accel_x == 100 && imu.accel_y == 500 && imu.accel_z == 980
    } else {
        -50 <= imu.accel_x < 150 && -50 <= imu.accel_y < 150 && 930 <= imu.accel_z < 1030
    }
    &&& -1000 <= imu.gyro_x < 1000
    &&& -1000 <= imu.gyro_y < 1000
    &&& -1000 <= imu.gyro_z < 1000
}

/// A tyre reading: about 32 psi, 20 to 40 °C, battery 80 to 99 %, no alert.
pub open spec fn tire_fits(t: TireSensor) -> bool {
    &&& 30_000 <= t.pressure_psi < 34_000
    &&& 20_000 <= t.temperature_c < 40_000
    &&& 80 <= t.battery_percent < 100
    &&& !t.alert
}

/// A position fix at the given place and speed: altitude around 100 m,
/// any heading, 8 to 11 satellites, fix quality 1.
pub open spec fn gps_fits(gps: GpsData, latitude: i64, longitude: i64, speed_kmh: i64) -> bool {
    &&& gps.latitude == latitude
    &&& gps.longitude == longitude
    &&& gps.speed_kmh == speed_kmh
    &&& 90_000 <= gps.altitude < 110_000
    &&& 0 <= gps.heading < 360_000
    &&& 8 <= gps.satellites < 12
    &&& gps.fix_quality == 1
}

/// Every reading the generator can give for a truck at the given place and
/// speed in the given scenario.
pub open spec fn sensor_reading(
    d: SensorData,
    latitude: i64,
    longitude: i64,
    speed_kmh: i64,
    scenario: Seq<char>,
) -> bool {
    &&& gps_fits(d.gps, latitude, longitude, speed_kmh)
    &&& obd_fits(d.obd, speed_kmh, scenario)
    &&& imu_fits(d.imu, scenario)
    &&& tire_fits(d.tpms.front_left)
    &&& tire_fits(d.tpms.front_right)
    &&& tire_fits(d.tpms.rear_left)
    &&& tire_fits(d.tpms.rear_right)
}

/// A half-open range `lo..hi` a value is drawn from.
#[derive(Clone, Copy, Debug)]
pub struct DrawRange {
    pub lo: i64,
    pub hi: i64,
}

pub open spec fn within(x: i64, r: DrawRange) -> bool {
    r.lo <= x < r.hi
}

/// The draws of one tyre: pressure and temperature offsets in thousandths,
/// battery offset in percent.
#[derive(Clone, Copy, Debug)]
pub struct TireDraws {
    pub pressure: i64,
    pub temperature: i64,
    pub battery: i64,
}

/// Every value drawn for one sample: the altitude offset, the heading and
/// the satellite count; the offsets of the engine readings and of the
/// accelerations (used outside the scripted scenarios); the rotation rates;
/// and the four tyres.
#[derive(Clone, Copy, Debug)]
pub struct SensorDraws {
    pub altitude: i64,
    pub heading: i64,
    pub satellites: i64,
    pub rpm: i64,
    pub coolant: i64,
    pub fuel: i64,
    pub load: i64,
    pub throttle: i64,
    pub accel_x: i64,
    pub accel_y: i64,
    pub accel_z: i64,
    pub gyro_x: i64,
    pub gyro_y: i64,
    pub gyro_z: i64,
    pub front_left: TireDraws,
    pub front_right: TireDraws,
    pub rear_left: TireDraws,
    pub rear_right: TireDraws,
}

/// The ranges of the tyre draws.
#[derive(Clone, Copy, Debug)]
pub struct TireRanges {
    pub pressure: DrawRange,
    pub temperature: DrawRange,
    pub battery: DrawRange,
}

/// The ranges of the sample draws, field by field.
#[derive(Clone, Copy, Debug)]
pub struct SensorRanges {
    pub altitude: DrawRange,
    pub heading: DrawRange,
    pub satellites: DrawRange,
    pub rpm: DrawRange,
    pub coolant: DrawRange,
    pub fuel: DrawRange,
    pub load: DrawRange,
    pub throttle: DrawRange,
    pub accel_x: DrawRange,
    pub accel_y: DrawRange,
    pub accel_z: DrawRange,
    pub gyro: DrawRange,
    pub tire: TireRanges,
}

/// The ranges the generator draws from: altitude ±10 m, any heading, 8 to
/// 11 satellites; revs ±500, coolant and fuel ±5, load and throttle ±20;
/// accelerations ±0.1 g sideways and ±0.05 g vertically; rotation ±1 °/s;
/// tyres ±2 psi, −5 to +15 °C and ±10 % battery.
pub open spec fn sensor_ranges_spec() -> SensorRanges {
    SensorRanges {
        altitude: DrawRange { lo: -10_000i64, hi: 10_000i64 },
        heading: DrawRange { lo: 0i64, hi: 360_000i64 },
        satellites: DrawRange { lo: 8i64, hi: 12i64 },
        rpm: DrawRange { lo: -500i64, hi: 500i64 },
        coolant: DrawRange { lo: -5i64, hi: 5i64 },
        fuel: DrawRange { lo: -5i64, hi: 5i64 },
        load: DrawRange { lo: -20i64, hi: 20i64 },
        throttle: DrawRange { lo: -20i64, hi: 20i64 },
        accel_x: DrawRange { lo: -100i64, hi: 100i64 },
        accel_y: DrawRange { lo: -100i64, hi: 100i64 },
        accel_z: DrawRange { lo: -50i64, hi: 50i64 },
        gyro: DrawRange { lo: -1000i64, hi: 1000i64 },
        tire: TireRanges {
            pressure: DrawRange { lo: -2_000i64, hi: 2_000i64 },
            temperature: DrawRange { lo: -5_000i64, hi: 15_000i64 },
            battery: DrawRange { lo: -10i64, hi: 10i64 },
        },
    }
}

pub open spec fn tire_draws_within(t: TireDraws, r: TireRanges) -> bool {
    within(t.pressure, r.pressure) && within(t.temperature, r.temperature) && within(t.battery, r.battery)
}

/// Every draw lies in its range.
pub open spec fn draws_within(d: SensorDraws, r: SensorRanges) -> bool {
    &&& within(d.altitude, r.altitude)
    &&& within(d.heading, r.heading)
    &&& within(d.satellites, r.satellites)
    &&& within(d.rpm, r.rpm)
    &&& within(d.coolant, r.coolant)
    &&& within(d.fuel, r.fuel)
    &&& within(d.load, r.load)
    &&& within(d.throttle, r.throttle)
    &&& within(d.accel_x, r.accel_x)
    &&& within(d.accel_y, r.accel_y)
    &&& within(d.accel_z, r.accel_z)
    &&& within(d.gyro_x, r.gyro)
    &&& within(d.gyro_y, r.gyro)
    &&& within(d.gyro_z, r.gyro)
    &&& tire_draws_within(d.front_left, r.tire)
    &&& tire_draws_within(d.front_right, r.tire)
    &&& tire_draws_within(d.rear_left, r.tire)
    &&& tire_draws_within(d.rear_right, r.tire)
}

/// The tyre reading of its draws: about 32 psi and 25 °C, 90 % battery.
pub open spec fn tire_of(t: TireDraws) -> TireSensor {
    TireSensor {
        pressure_psi: (32_000 + t.pressure) as i64,
        temperature_c: (25_000 + t.temperature) as i64,
        battery_percent: (90 + t.battery) as u8,
        alert: false,
    }
}

/// The engine readings of a sample with the given draws.
pub open spec fn obd_of(speed_kmh: i64, scenario: Seq<char>, d: SensorDraws) -> ObdData {
    let speed = obd_speed(speed_kmh) as u8;
    if scenario == "emergency_braking"@ {
        ObdData { rpm: 2000, speed_kmh: speed, coolant_temp: 95, fuel_level: 75, engine_load: 80, throttle_pos: 20 }
    } else if scenario == "rapid_acceleration"@ {
        ObdData { rpm: 4000, speed_kmh: speed, coolant_temp: 90, fuel_level: 75, engine_load: 90, throttle_pos: 90 }
    } else if scenario == "system_failure"@ {
        ObdData { rpm: 1000, speed_kmh: speed, coolant_temp: 110, fuel_level: 75, engine_load: 30, throttle_pos: 10 }
    } else {
        let base: int = if speed_kmh > 80_000 {
            2500
        } else {
            1500
        };
        ObdData {
            rpm: (base + d.rpm) as u16,
            speed_kmh: speed,
            coolant_temp: (85 + d.coolant) as i8,
            fuel_level: (75 + d.fuel) as u8,
            engine_load: (50 + d.load) as u8,
            throttle_pos: (30 + d.throttle) as u8,
        }
    }
}

/// The inertial readings of a sample with the given draws.
pub open spec fn imu_of(scenario: Seq<char>, d: SensorDraws) -> ImuData {
    let (x, y, z) = if scenario == "emergency_braking"@ {
        (-800i64, 100i64, 980i64)
    } else if scenario == "rapid_acceleration"@ {
        (600i64, 100i64, 980i64)
    } else if scenario == "sharp_turn"@ {
        (100i64, 500i64, 980i64)
    } else {
        ((50 + d.accel_x) as i64, (50 + d.accel_y) as i64, (980 + d.accel_z) as i64)
    };
    ImuData { accel_x: x, accel_y: y, accel_z: z, gyro_x: d.gyro_x, gyro_y: d.gyro_y, gyro_z: d.gyro_z }
}

/// The sample a truck at the given place and speed gives in the given
/// scenario with the given draws.
pub open spec fn sensor_data_of(
    latitude: i64,
    longitude: i64,
    speed_kmh: i64,
    scenario: Seq<char>,
    d: SensorDraws,
) -> SensorData {
    SensorData {
        gps: GpsData {
            latitude,
            longitude,
            altitude: (100_000 + d.altitude) as i64,
            speed_kmh,
            heading: d.heading,
            satellites: d.satellites as u8,
            fix_quality: 1,
        },
        obd: obd_of(speed_kmh, scenario, d),
        imu: imu_of(scenario, d),
        tpms: TpmsData {
            front_left: tire_of(d.front_left),
            front_right: tire_of(d.front_right),
            rear_left: tire_of(d.rear_left),
            rear_right: tire_of(d.rear_right),
        },
    }
}

/// The ranges the generator draws from (see `sensor_ranges_spec`).
pub fn sensor_ranges() -> (r: SensorRanges)
    ensures
        r == sensor_ranges_spec(),
{
    SensorRanges {
        altitude: DrawRange { lo: -10_000, hi: 10_000 },
        heading: DrawRange { lo: 0, hi: 360_000 },
        satellites: DrawRange { lo: 8, hi: 12 },
        rpm: DrawRange { lo: -500, hi: 500 },
        coolant: DrawRange { lo: -5, hi: 5 },
        fuel: DrawRange { lo: -5, hi: 5 },
        load: DrawRange { lo: -20, hi: 20 },
        throttle: DrawRange { lo: -20, hi: 20 },
        accel_x: DrawRange { lo: -100, hi: 100 },
        accel_y: DrawRange { lo: -100, hi: 100 },
        accel_z: DrawRange { lo: -50, hi: 50 },
        gyro: DrawRange { lo: -1000, hi: 1000 },
        tire: TireRanges {
            pressure: DrawRange { lo: -2_000, hi: 2_000 },
            temperature: DrawRange { lo: -5_000, hi: 15_000 },
            battery: DrawRange { lo: -10, hi: 10 },
        },
    }
}

fn draw(r: DrawRange) -> (x: i64)
    requires
        r.lo < r.hi,
    ensures
        within(x, r),
{
    random_in(r.lo, r.hi)
}

fn draw_tire(r: TireRanges) -> (t: TireDraws)
    requires
        r.pressure.lo < r.pressure.hi,
        r.temperature.lo < r.temperature.hi,
        r.battery.lo < r.battery.hi,
    ensures
        tire_draws_within(t, r),
{
    TireDraws { pressure: draw(r.pressure), temperature: draw(r.temperature), battery: draw(r.battery) }
}

fn draw_sensor_values() -> (d: SensorDraws)
    ensures
        draws_within(d, sensor_ranges_spec()),
{
    let r = sensor_ranges();
    SensorDraws {
        altitude: draw(r.altitude),
        heading: draw(r.heading),
        satellites: draw(r.satellites),
        rpm: draw(r.rpm),
        coolant: draw(r.coolant),
        fuel: draw(r.fuel),
        load: draw(r.load),
        throttle: draw(r.throttle),
        accel_x: draw(r.accel_x),
        accel_y: draw(r.accel_y),
        accel_z: draw(r.accel_z),
        gyro_x: draw(r.gyro),
        gyro_y: draw(r.gyro),
        gyro_z: draw(r.gyro),
        front_left: draw_tire(r.tire),
        front_right: draw_tire(r.tire),
        rear_left: draw_tire(r.tire),
        rear_right: draw_tire(r.tire),
    }
}

fn tire_for_draws(t: TireDraws) -> (s: TireSensor)
    requires
        tire_draws_within(t, sensor_ranges_spec().tire),
    ensures
        s == tire_of(t),
{
    TireSensor {
        pressure_psi: 32_000 + t.pressure,
        temperature_c: 25_000 + t.temperature,
        battery_percent: (90 + t.battery) as u8,
        alert: false,
    }
}

/// The sample of a truck at the given place and speed in the given
/// scenario, given the draws (see `sensor_data_of`).
pub fn sensor_data_for_draws(
    latitude: i64,
    longitude: i64,
    speed_kmh: i64,
    scenario: &str,
    draws: &SensorDraws,
) -> (d: SensorData)
    requires
        draws_within(*draws, sensor_ranges_spec()),
    ensures
        d == sensor_data_of(latitude, longitude, speed_kmh, scenario@, *draws),
{
    proof {
        reveal_strlit("emergency_braking");
        reveal_strlit("rapid_acceleration");
        reveal_strlit("system_failure");
        reveal_strlit("sharp_turn");
    }
    let gps = GpsData {
        latitude,
        longitude,
        altitude: 100_000 + draws.altitude,
        speed_kmh,
        heading: draws.heading,
        satellites: draws.satellites as u8,
        fix_quality: 1,
    };
    let speed = obd_speed_of(speed_kmh);
    let obd = if same_text(scenario, "emergency_braking") {
        ObdData { rpm: 2000, speed_kmh: speed, coolant_temp: 95, fuel_level: 75, engine_load: 80, throttle_pos: 20 }
    } else if same_text(scenario, "rapid_acceleration") {
        ObdData { rpm: 4000, speed_kmh: speed, coolant_temp: 90, fuel_level: 75, engine_load: 90, throttle_pos: 90 }
    } else if same_text(scenario, "system_failure") {
        ObdData { rpm: 1000, speed_kmh: speed, coolant_temp: 110, fuel_level: 75, engine_load: 30, throttle_pos: 10 }
    } else {
        let base_rpm: i64 = if speed_kmh > 80_000 {
            2500
        } else {
            1500
        };
        ObdData {
            rpm: (base_rpm + draws.rpm) as u16,
            speed_kmh: speed,
            coolant_temp: (85 + draws.coolant) as i8,
            fuel_level: (75 + draws.fuel) as u8,
            engine_load: (50 + draws.load) as u8,
            throttle_pos: (30 + draws.throttle) as u8,
        }
    };
    let (accel_x, accel_y, accel_z): (i64, i64, i64) = if same_text(scenario, "emergency_braking") {
        (-800, 100, 980)
    } else if same_text(scenario, "rapid_acceleration") {
        (600, 100, 980)
    } else if same_text(scenario, "sharp_turn") {
        (100, 500, 980)
    } else {
        (50 + draws.accel_x, 50 + draws.accel_y, 980 + draws.accel_z)
    };
    let imu = ImuData { accel_x, accel_y, accel_z, gyro_x: draws.gyro_x, gyro_y: draws.gyro_y, gyro_z: draws.gyro_z };
    let tpms = TpmsData {
        front_left: tire_for_draws(draws.front_left),
        front_right: tire_for_draws(draws.front_right),
        rear_left: tire_for_draws(draws.rear_left),
        rear_right: tire_for_draws(draws.rear_right),
    };
    SensorData { gps, obd, imu, tpms }
}

/// A sample made from draws in their ranges is a reading the scenario can
/// give.
pub proof fn lemma_drawn_sample_fits(
    latitude: i64,
    longitude: i64,
    speed_kmh: i64,
    scenario: Seq<char>,
    d: SensorDraws,
)
    requires
        draws_within(d, sensor_ranges_spec()),
    ensures
        sensor_reading(sensor_data_of(latitude, longitude, speed_kmh, scenario, d), latitude, longitude, speed_kmh, scenario),
{
}

/// Produces the sensor readings of one truck.
pub struct SensorGenerator {
    pub truck_id: String,
}

fn obd_speed_of(speed_kmh: i64) -> (s: u8)
    ensures
        s == obd_speed(speed_kmh),
{
    if speed_kmh < 0 {
        0
    } else if speed_kmh / 1000 > 255 {
        255
    } else {
        (speed_kmh / 1000) as u8
    }
}

impl SensorGenerator {
    pub fn new(truck_id: &str) -> (g: Self)
        ensures
            g.truck_id@ == truck_id@,
    {
        SensorGenerator { truck_id: String::from_str(truck_id) }
    }

    /// One sample of every sensor group, shaped by the scenario.
    pub fn generate_sensor_data(
        &self,
        latitude: i64,
        longitude: i64,
        speed_kmh: i64,
        scenario: &str,
    ) -> (d: SensorData)
        ensures
            sensor_reading(d, latitude, longitude, speed_kmh, scenario@),
            exists|draws: SensorDraws|
                draws_within(draws, sensor_ranges_spec()) && d == sensor_data_of(
                    latitude,
                    longitude,
                    speed_kmh,
                    scenario@,
                    draws,
                ),
    {
        let draws = draw_sensor_values();
        let d = sensor_data_for_draws(latitude, longitude, speed_kmh, scenario, &draws);
        proof {
            lemma_drawn_sample_fits(latitude, longitude, speed_kmh, scenario@, draws);
        }
        d
    }
}

} // verus!
