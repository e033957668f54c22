use truck_fleet::ingestion::{route_mqtt_topic, EventKind, Routing};
use truck_fleet::simulator::config::{
    CameraConfig, MlConfig, ScenarioConfig, SensorConfig, ServerConfig, SimulationConfig,
    SimulatorConfig, TruckConfig,
};
use truck_fleet::simulator::error::SimulatorError;
use truck_fleet::simulator::protocol::http::{HttpHandler, TruckStateStore};
use truck_fleet::simulator::protocol::mqtt::MqttHandler;
use truck_fleet::simulator::scenario::{pick_weighted, Scenario, ScenarioKind, ScenarioManager};
use truck_fleet::simulator::truck::camera::CameraGenerator;
use truck_fleet::simulator::truck::health::{alert_draw_odds, alerts_for_draws, HealthGenerator};
use truck_fleet::simulator::truck::ml::{ml_plan, InferenceDraws, MlDraws, MlGenerator};
use truck_fleet::simulator::truck::ota::{command_pick_range, command_type_text, issue_odds, OtaGenerator};
use truck_fleet::simulator::truck::sensor::{
    sensor_data_for_draws, sensor_ranges, SensorDraws, SensorGenerator, TireDraws,
};
use truck_fleet::simulator::truck::{drift_odds, turn_odds, TruckSimulator};
use truck_fleet::simulator::types::{
    AlertSeverity, CameraData, CommandType, HealthStatus, MlResult, NetworkQuality, Position,
    TruckState,
};
use truck_fleet::simulator::Simulator;

fn truck_config(id: &str, cameras: bool) -> TruckConfig {
    TruckConfig {
        id: id.to_string(),
        model: "Model-Y".to_string(),
        initial_latitude: 40_000_000,
        initial_longitude: -74_000_000,
        initial_speed: 60_000,
        sensor_config: SensorConfig {
            gps_update_rate_hz: 10,
            obd_update_rate_hz: 10,
            imu_update_rate_hz: 100,
            tpms_update_rate_hz: 1,
        },
        camera_config: CameraConfig {
            front_camera: cameras,
            driver_camera: cameras,
            cargo_camera: cameras,
            resolution: "1280x720".to_string(),
            fps: 15,
        },
        ml_config: MlConfig {
            drowsiness_detection: true,
            lane_departure_detection: true,
            cargo_tamper_detection: true,
            license_plate_detection: false,
        },
    }
}

fn scenario_config(name: &str, probability: u32, minutes: u32) -> ScenarioConfig {
    ScenarioConfig {
        name: name.to_string(),
        description: format!("{} scenario", name),
        probability,
        duration_minutes: minutes,
        parameters: "{}".to_string(),
    }
}

fn simulator_config(scenarios: Vec<ScenarioConfig>, trucks: Vec<TruckConfig>, num_trucks: usize) -> SimulatorConfig {
    SimulatorConfig {
        server: ServerConfig {
            bind_address: "0.0.0.0".to_string(),
            metrics_port: 9091,
            mqtt_port: 1883,
            http_port: 8081,
            websocket_port: 8082,
        },
        simulation: SimulationConfig {
            num_trucks,
            update_interval_ms: 1000,
            enable_mqtt: true,
            enable_http: true,
            enable_websocket: false,
            base_latitude: 37_774_900,
            base_longitude: -122_419_400,
            route_radius_km: 10_000,
        },
        scenarios,
        trucks,
    }
}

fn empty_health() -> HealthStatus {
    HealthStatus {
        cpu_percent: 0,
        memory_percent: 0,
        disk_percent: 0,
        temperature_c: 0,
        network_quality: NetworkQuality { latency_ms: 0, packet_loss_percent: 0, bandwidth_kbps: 0 },
        alerts: Vec::new(),
    }
}

fn state_of(truck_id: &str, speed: i64) -> TruckState {
    let g = SensorGenerator::new(truck_id);
    TruckState {
        truck_id: truck_id.to_string(),
        timestamp: 1,
        location: Position(1, 2),
        speed_kmh: speed,
        heading: 0,
        scenario: "normal_driving".to_string(),
        sensors: g.generate_sensor_data(1, 2, speed, "normal_driving"),
        cameras: CameraData { front_camera: None, driver_camera: None, cargo_camera: None },
        ml_events: Vec::new(),
        health_status: empty_health(),
    }
}

fn pixel(data: &[u8], width: usize, x: usize, y: usize) -> (u8, u8, u8) {
    let i = 3 * (y * width + x);
    (data[i], data[i + 1], data[i + 2])
}

#[test]
fn sensor_readings_in_normal_driving_vary_within_bounds() {
    let g = SensorGenerator::new("TRK-0001");
    for _ in 0..200 {
        let d = g.generate_sensor_data(40_000_000, -74_000_000, 85_500, "normal_driving");
        assert_eq!(d.gps.latitude, 40_000_000);
        assert_eq!(d.gps.longitude, -74_000_000);
        assert_eq!(d.gps.speed_kmh, 85_500);
        assert!(90_000 <= d.gps.altitude && d.gps.altitude < 110_000);
        assert!(0 <= d.gps.heading && d.gps.heading < 360_000);
        assert!(8 <= d.gps.satellites && d.gps.satellites < 12);
        assert_eq!(d.gps.fix_quality, 1);
        assert_eq!(d.obd.speed_kmh, 85);
        assert!(2000 <= d.obd.rpm && d.obd.rpm < 3000);
        assert!(80 <= d.obd.coolant_temp && d.obd.coolant_temp < 90);
        assert!(70 <= d.obd.fuel_level && d.obd.fuel_level < 80);
        assert!(30 <= d.obd.engine_load && d.obd.engine_load < 70);
        assert!(10 <= d.obd.throttle_pos && d.obd.throttle_pos < 50);
        assert!(-50 <= d.imu.accel_x && d.imu.accel_x < 150);
        assert!(930 <= d.imu.accel_z && d.imu.accel_z < 1030);
        assert!(-1000 <= d.imu.gyro_z && d.imu.gyro_z < 1000);
        for t in [d.tpms.front_left, d.tpms.front_right, d.tpms.rear_left, d.tpms.rear_right] {
            assert!(30_000 <= t.pressure_psi && t.pressure_psi < 34_000);
            assert!(20_000 <= t.temperature_c && t.temperature_c < 40_000);
            assert!(80 <= t.battery_percent && t.battery_percent < 100);
            assert!(!t.alert);
        }
    }
}

#[test]
fn sensor_readings_at_cruising_speed_rev_lower() {
    let g = SensorGenerator::new("TRK-0001");
    for _ in 0..100 {
        let d = g.generate_sensor_data(0, 0, 80_000, "normal_driving");
        assert!(1000 <= d.obd.rpm && d.obd.rpm < 2000);
    }
}

#[test]
fn sensor_readings_are_fixed_while_braking_hard() {
    let g = SensorGenerator::new("TRK-0001");
    let d = g.generate_sensor_data(1, 2, 50_000, "emergency_braking");
    assert_eq!((d.obd.rpm, d.obd.coolant_temp, d.obd.fuel_level, d.obd.engine_load, d.obd.throttle_pos), (2000, 95, 75, 80, 20));
    assert_eq!((d.imu.accel_x, d.imu.accel_y, d.imu.accel_z), (-800, 100, 980));
    let d = g.generate_sensor_data(1, 2, 50_000, "rapid_acceleration");
    assert_eq!((d.obd.rpm, d.obd.coolant_temp, d.obd.engine_load, d.obd.throttle_pos), (4000, 90, 90, 90));
    assert_eq!((d.imu.accel_x, d.imu.accel_y, d.imu.accel_z), (600, 100, 980));
    let d = g.generate_sensor_data(1, 2, 50_000, "system_failure");
    assert_eq!((d.obd.rpm, d.obd.coolant_temp, d.obd.engine_load, d.obd.throttle_pos), (1000, 110, 30, 10));
    let d = g.generate_sensor_data(1, 2, 50_000, "sharp_turn");
    assert_eq!((d.imu.accel_x, d.imu.accel_y, d.imu.accel_z), (100, 500, 980));
}

#[test]
fn diagnostics_speed_is_truncated_and_held_in_a_byte() {
    let g = SensorGenerator::new("TRK-0001");
    assert_eq!(g.generate_sensor_data(0, 0, 300_000, "normal_driving").obd.speed_kmh, 255);
    assert_eq!(g.generate_sensor_data(0, 0, -5_000, "normal_driving").obd.speed_kmh, 0);
    assert_eq!(g.generate_sensor_data(0, 0, 72_999, "normal_driving").obd.speed_kmh, 72);
}

#[test]
fn drowsy_driver_yields_one_positive_detection() {
    let g = MlGenerator::new("TRK-0007");
    let events = g.generate_ml_events("drowsy_driver", 42);
    assert_eq!(events.len(), 1);
    let e = &events[0];
    assert_eq!(e.event_id, "ml-TRK-0007-drowsiness-42");
    assert_eq!(e.model_name, "drowsiness");
    assert_eq!(e.timestamp, 42);
    match e.result {
        MlResult::Drowsiness { is_drowsy, eye_closure_ratio } => {
            assert!(is_drowsy);
            assert!(700 <= eye_closure_ratio && eye_closure_ratio < 900);
        }
        _ => panic!("wrong result kind"),
    }
    assert!(850 <= e.confidence && e.confidence < 950);
    assert!(40_000 <= e.latency_ms && e.latency_ms < 70_000);
}

#[test]
fn detection_scenarios_name_their_models() {
    let g = MlGenerator::new("T");
    let lane = g.generate_ml_events("lane_departure", 5);
    assert_eq!(lane[0].event_id, "ml-T-lane_departure-5");
    match lane[0].result {
        MlResult::LaneDeparture { is_departing, deviation_pixels } => {
            assert!(is_departing);
            assert!(50 <= deviation_pixels && deviation_pixels < 80);
        }
        _ => panic!("wrong result kind"),
    }
    let cargo = g.generate_ml_events("cargo_tamper", 6);
    assert_eq!(cargo[0].event_id, "ml-T-cargo_tamper-6");
    assert!(matches!(cargo[0].result, MlResult::CargoTamper { is_tampered: true, .. }));
    let plate = g.generate_ml_events("license_plate", 7);
    assert_eq!(plate[0].event_id, "ml-T-license_plate-7");
    match &plate[0].result {
        MlResult::LicensePlate { plate_text, bounding_box } => {
            assert!(plate_text.starts_with("TRK-"));
            let n: u32 = plate_text[4..].parse().unwrap();
            assert!(1000 <= n && n < 9999);
            assert_eq!((bounding_box.0, bounding_box.1, bounding_box.2, bounding_box.3), (100, 100, 200, 100));
        }
        _ => panic!("wrong result kind"),
    }
    assert!(g.generate_ml_events("sharp_turn", 8).is_empty());
}

#[test]
fn normal_driving_yields_at_most_two_negative_checks() {
    let g = MlGenerator::new("T");
    for _ in 0..500 {
        let events = g.generate_ml_events("normal_driving", 9);
        assert!(events.len() <= 2);
        for e in &events {
            match e.result {
                MlResult::Drowsiness { is_drowsy, .. } => assert!(!is_drowsy),
                MlResult::LaneDeparture { is_departing, deviation_pixels } => {
                    assert!(!is_departing);
                    assert!(5 <= deviation_pixels && deviation_pixels < 25);
                }
                _ => panic!("unexpected result kind"),
            }
        }
        if events.len() == 2 {
            assert_eq!(events[0].model_name, "drowsiness");
            assert_eq!(events[1].model_name, "lane_departure");
        }
    }
}

#[test]
fn failing_system_runs_hot_late_in_the_scenario() {
    let mut g = HealthGenerator::new("T", 0);
    g.set_scenario("system_failure", 10, 1_000);
    assert_eq!(g.scenario_duration_ms, 600_000);
    assert_eq!(g.scenario_start_ms, 1_000);
    let early = g.generate_health_status("system_failure", 1_000 + 60_000, 5);
    assert!(35_000 <= early.cpu_percent && early.cpu_percent < 55_000);
    assert!(early.alerts.is_empty());
    let middle = g.generate_health_status("system_failure", 1_000 + 300_000, 5);
    assert!(65_000 <= middle.cpu_percent && middle.cpu_percent < 80_000);
    assert!(60_000 <= middle.temperature_c && middle.temperature_c < 75_000);
    for _ in 0..100 {
        let late = g.generate_health_status("system_failure", 1_000 + 540_000, 5);
        assert!(90_000 <= late.cpu_percent && late.cpu_percent < 100_000);
        assert!(80_000 <= late.memory_percent && late.memory_percent < 95_000);
        assert!(80_000 <= late.temperature_c && late.temperature_c < 95_000);
        assert!(late.alerts.len() <= 2);
        for a in &late.alerts {
            assert_eq!(a.timestamp, 5);
            if a.alert_type == "high_cpu_usage" {
                assert_eq!(a.severity, AlertSeverity::Warning);
                assert_eq!(a.message, "CPU usage is high");
            } else {
                assert_eq!(a.alert_type, "high_temperature");
                assert_eq!(a.severity, AlertSeverity::Critical);
                assert_eq!(a.message, "System temperature critical");
            }
        }
    }
}

#[test]
fn scenario_without_duration_counts_as_ended() {
    let g = HealthGenerator::new("T", 100);
    assert_eq!(g.scenario_duration_ms, 0);
    let h = g.generate_health_status("system_failure", 100, 1);
    assert!(90_000 <= h.cpu_percent);
    assert!(h.alerts.is_empty());
    let h = g.generate_health_status("system_failure", 50, 1);
    assert!(90_000 <= h.cpu_percent);
}

#[test]
fn device_readings_outside_failures_stay_normal() {
    let g = HealthGenerator::new("T", 0);
    for _ in 0..100 {
        let h = g.generate_health_status("normal_driving", 10, 1);
        assert!(35_000 <= h.cpu_percent && h.cpu_percent < 55_000);
        assert!(50_000 <= h.memory_percent && h.memory_percent < 70_000);
        assert!(65_000 <= h.disk_percent && h.disk_percent < 75_000);
        assert!(40_000 <= h.temperature_c && h.temperature_c < 55_000);
        assert!(30_000 <= h.network_quality.latency_ms && h.network_quality.latency_ms < 100_000);
        assert!(0 <= h.network_quality.packet_loss_percent && h.network_quality.packet_loss_percent < 2_500);
        assert!(800_000 <= h.network_quality.bandwidth_kbps && h.network_quality.bandwidth_kbps < 1_500_000);
        let b = g.generate_health_status("emergency_braking", 10, 1);
        assert!(55_000 <= b.cpu_percent && b.cpu_percent < 80_000);
        let a = g.generate_health_status("rapid_acceleration", 10, 1);
        assert!(60_000 <= a.cpu_percent && a.cpu_percent < 85_000);
        assert!(50_000 <= a.temperature_c && a.temperature_c < 70_000);
    }
}

#[test]
fn alerts_before_half_way_never_report_failure() {
    let g = HealthGenerator::new("T", 0);
    for _ in 0..200 {
        assert!(g.generate_alerts("system_failure", 50, 100, 3).is_empty());
        let late = g.generate_alerts("system_failure", 60, 100, 3);
        assert!(late.iter().all(|a| a.alert_type == "high_cpu_usage"));
    }
}

#[test]
fn over_the_air_commands_follow_the_scenario() {
    let g = OtaGenerator::new("TRK-9");
    let mut seen = 0;
    for _ in 0..300 {
        if let Some(c) = g.generate_ota_command("system_failure", 77) {
            seen += 1;
            assert_eq!(c.command_id, "cmd-TRK-9-config-77");
            assert_eq!(c.truck_id, "TRK-9");
            assert_eq!(c.command_type, CommandType::UpdateConfig);
            assert_eq!(c.issued_at, 77);
            assert_eq!(
                c.parameters,
                "{\"camera\":{\"fps\":10},\"ml_edge\":{\"enable_cargo_tamper\":false,\"enable_drowsiness\":true,\"enable_lane_departure\":true}}"
            );
        }
        if let Some(c) = g.generate_ota_command("maintenance", 78) {
            assert_eq!(c.command_id, "cmd-TRK-9-firmware-78");
            assert_eq!(c.command_type, CommandType::UpdateFirmware);
        }
        if let Some(c) = g.generate_ota_command("normal_driving", 79) {
            assert_eq!(c.command_id, "cmd-TRK-9-diagnostics-79");
            assert_eq!(c.parameters, "{\"detail_level\":\"full\"}");
        }
    }
    assert!(seen > 0);
    for _ in 0..3000 {
        if let Some(c) = g.generate_ota_command("sharp_turn", 80) {
            assert_ne!(c.command_type, CommandType::UpdateFirmware);
            assert_eq!(c.command_id, format!("cmd-TRK-9-{}-80", command_type_text(c.command_type)));
            assert_eq!(c.parameters, "{}");
        }
    }
}

#[test]
fn command_types_are_written_by_name() {
    assert_eq!(command_type_text(CommandType::UpdateConfig), "UpdateConfig");
    assert_eq!(command_type_text(CommandType::Reboot), "Reboot");
    assert_eq!(command_type_text(CommandType::GetDiagnostics), "GetDiagnostics");
}

#[test]
fn front_camera_draws_the_road() {
    let g = CameraGenerator::new("T");
    let f = g.generate_front_camera_frame("normal_driving", 11);
    assert_eq!((f.width, f.height, f.timestamp), (1280, 720, 11));
    assert_eq!(f.format, "rgb");
    assert!(f.is_keyframe);
    assert_eq!(f.metadata.exposure_us, Some(5_000));
    assert_eq!(f.metadata.gain_db, Some(0));
    assert_eq!(f.metadata.temperature_c, Some(25_000));
    assert_eq!(f.metadata.gps_lat, None);
    assert_eq!(f.data.len(), 1280 * 720 * 3);
    assert_eq!(pixel(&f.data, 1280, 0, 0), (135, 206, 235));
    assert_eq!(pixel(&f.data, 1280, 640, 239), (135, 206, 235));
    assert_eq!(pixel(&f.data, 1280, 640, 240), (255, 255, 255));
    assert_eq!(pixel(&f.data, 1280, 635, 290), (255, 255, 255));
    assert_eq!(pixel(&f.data, 1280, 646, 290), (100, 100, 100));
    assert_eq!(pixel(&f.data, 1280, 640, 241), (100, 100, 100));
    assert_eq!(pixel(&f.data, 1280, 740, 290), (100, 100, 100));
    let shifted = g.generate_front_camera_frame("lane_departure", 11);
    assert_eq!(pixel(&shifted.data, 1280, 740, 290), (255, 255, 255));
    let cargo = g.generate_front_camera_frame("cargo_tamper", 11);
    assert_eq!(pixel(&cargo.data, 1280, 426, 360), (200, 150, 100));
    assert_eq!(pixel(&cargo.data, 1280, 625, 459), (200, 150, 100));
    assert_eq!(pixel(&cargo.data, 1280, 626, 459), (100, 100, 100));
}

#[test]
fn cargo_camera_shows_tampering_in_red() {
    let g = CameraGenerator::new("T");
    let f = g.generate_cargo_camera_frame("normal_driving", 1);
    assert_eq!((f.width, f.height), (800, 600));
    assert_eq!(f.metadata.exposure_us, Some(8_000));
    assert_eq!(f.data.len(), 800 * 600 * 3);
    assert_eq!(pixel(&f.data, 800, 10, 10), (50, 50, 50));
    assert_eq!(pixel(&f.data, 800, 300, 200), (200, 150, 100));
    let t = g.generate_cargo_camera_frame("cargo_tamper", 1);
    assert_eq!(pixel(&t.data, 800, 300, 200), (255, 0, 0));
    assert_eq!(pixel(&t.data, 800, 500, 400), (200, 150, 100));
}

#[test]
fn driver_camera_is_the_scenario_colour_with_some_noise() {
    let g = CameraGenerator::new("T");
    let f = g.generate_driver_camera_frame("drowsy_driver", 2);
    assert_eq!((f.width, f.height), (640, 480));
    assert_eq!(f.metadata.exposure_us, Some(10_000));
    assert_eq!(f.data.len(), 640 * 480 * 3);
    let mut noisy = 0;
    for p in 0..640 * 480 {
        let px = (f.data[3 * p], f.data[3 * p + 1], f.data[3 * p + 2]);
        if px != (255, 0, 0) {
            noisy += 1;
            assert!(px.0 < 255 && px.1 < 255 && px.2 < 255);
        }
    }
    assert!(noisy <= 1000);
    let n = g.generate_driver_camera_frame("something_else", 2);
    assert!(n.data.chunks(3).filter(|c| *c == [128u8, 128, 128]).count() >= 640 * 480 - 1000);
}

#[test]
fn truck_stays_put_until_its_update_is_due() {
    let mut t = TruckSimulator::new(truck_config("TRK-1", true), 1000, 5_000);
    assert_eq!(t.current_location, Position(40_000_000, -74_000_000));
    assert_eq!(t.current_speed, 60_000);
    assert_eq!(t.current_heading, 0);
    assert_eq!(t.current_scenario, "normal_driving");
    let (state, cmd) = t.update(5_500, 99, Position(1, 1));
    assert!(cmd.is_none());
    assert_eq!(state.truck_id, "TRK-1");
    assert_eq!(state.timestamp, 99);
    assert_eq!(state.location, Position(40_000_000, -74_000_000));
    assert!(state.cameras.front_camera.is_none());
    assert!(state.ml_events.is_empty());
    assert_eq!(t.last_update_ms, 5_000);
    let (state, _) = t.update(6_000, 100, Position(40_000_100, -74_000_100));
    assert_eq!(t.last_update_ms, 6_000);
    assert_eq!(state.location, Position(40_000_100, -74_000_100));
    assert_eq!(t.current_location, Position(40_000_100, -74_000_100));
    assert!(state.cameras.front_camera.is_some());
    assert!(state.cameras.driver_camera.is_some());
    assert!(state.cameras.cargo_camera.is_some());
    assert_eq!(state.sensors.gps.latitude, 40_000_100);
    assert_eq!(state.speed_kmh, t.current_speed);
}

#[test]
fn trucks_without_cameras_send_no_frames() {
    let mut t = TruckSimulator::new(truck_config("TRK-2", false), 0, 0);
    let (state, _) = t.update(1, 1, Position(0, 0));
    assert!(state.cameras.front_camera.is_none());
    assert!(state.cameras.driver_camera.is_none());
    assert!(state.cameras.cargo_camera.is_none());
}

#[test]
fn speed_follows_the_scenario_rules() {
    let mut t = TruckSimulator::new(truck_config("TRK-3", false), 0, 0);
    t.set_scenario("emergency_braking", 5, 0);
    assert_eq!(t.current_scenario, "emergency_braking");
    assert_eq!(t.scenario_duration_ms, 300_000);
    assert_eq!(t.health_generator.scenario_duration_ms, 300_000);
    t.update_position(Position(0, 0));
    assert_eq!(t.current_speed, 55_000);
    t.current_speed = 3_000;
    t.update_position(Position(0, 0));
    assert_eq!(t.current_speed, 0);
    t.set_scenario("rapid_acceleration", 5, 0);
    t.current_speed = 60_000;
    t.update_position(Position(0, 0));
    assert_eq!(t.current_speed, 63_000);
    t.current_speed = 119_000;
    t.update_position(Position(0, 0));
    assert_eq!(t.current_speed, 120_000);
    t.set_scenario("sharp_turn", 5, 0);
    t.current_speed = 60_000;
    t.update_position(Position(0, 0));
    assert_eq!(t.current_speed, 58_000);
    t.current_speed = 10_000;
    t.update_position(Position(0, 0));
    assert_eq!(t.current_speed, 20_000);
}

#[test]
fn speed_and_heading_stay_legal_over_many_moves() {
    let mut t = TruckSimulator::new(truck_config("TRK-4", false), 0, 0);
    for i in 0..3000 {
        let before_speed = t.current_speed;
        let before_heading = t.current_heading;
        t.update_position(Position(i, i));
        assert!(0 <= t.current_speed && t.current_speed <= 120_000);
        assert!(0 <= t.current_heading && t.current_heading < 360_000);
        assert!((t.current_speed - before_speed).abs() <= 2_000);
        let turn = (t.current_heading - before_heading).rem_euclid(360_000);
        assert!(turn < 30_000 || turn >= 330_000);
    }
}

#[test]
fn scenarios_register_by_name_and_later_ones_win() {
    let config = simulator_config(
        vec![
            scenario_config("normal_driving", 500, 10),
            scenario_config("emergency_braking", 0, 2),
            scenario_config("normal_driving", 700, 20),
            scenario_config("mystery", 100, 1),
        ],
        vec![],
        0,
    );
    let m = ScenarioManager::new(&config);
    assert_eq!(m.scenarios.len(), 3);
    let normal = m.get_scenario("normal_driving").unwrap();
    assert_eq!(normal.kind, ScenarioKind::NormalDriving);
    assert_eq!(normal.duration_minutes(), 20);
    assert_eq!(m.get_scenario_config("normal_driving").unwrap().probability, 700);
    assert_eq!(m.get_scenario("emergency_braking").unwrap().kind, ScenarioKind::EmergencyBraking);
    assert_eq!(m.get_scenario("mystery").unwrap().kind, ScenarioKind::NormalDriving);
    assert!(m.get_scenario("sharp_turn").is_none());
    assert!(m.get_scenario_config("sharp_turn").is_none());
}

#[test]
fn weighted_pick_uses_bands_of_the_weights() {
    let ws = vec![0u32, 3, 2];
    assert_eq!(pick_weighted(&ws, 0), 1);
    assert_eq!(pick_weighted(&ws, 2), 1);
    assert_eq!(pick_weighted(&ws, 3), 2);
    assert_eq!(pick_weighted(&ws, 4), 2);
}

#[test]
fn selection_never_picks_a_scenario_of_weight_zero() {
    let config = simulator_config(
        vec![scenario_config("sharp_turn", 0, 1), scenario_config("maintenance", 5, 1)],
        vec![],
        0,
    );
    let m = ScenarioManager::new(&config);
    for _ in 0..200 {
        assert_eq!(m.select_scenario().unwrap().name(), "maintenance");
    }
    let zero = ScenarioManager::new(&simulator_config(
        vec![scenario_config("sharp_turn", 0, 1), scenario_config("maintenance", 0, 1)],
        vec![],
        0,
    ));
    assert_eq!(zero.select_scenario().unwrap().name(), "sharp_turn");
    let none = ScenarioManager::new(&simulator_config(vec![], vec![], 0));
    assert!(none.select_scenario().is_none());
}

#[test]
fn scenarios_restart_only_at_their_start() {
    let braking = Scenario::new(&scenario_config("emergency_braking", 1, 3));
    assert_eq!(braking.kind, ScenarioKind::EmergencyBraking);
    assert_eq!(braking.parameters(), "{}");
    let mut t = TruckSimulator::new(truck_config("TRK-5", false), 0, 0);
    braking.update_truck(&mut t, 10_000, 1, 1, Position(0, 0));
    assert_eq!(t.current_scenario, "normal_driving");
    braking.update_truck(&mut t, 5_999, 2, 2, Position(0, 0));
    assert_eq!(t.current_scenario, "emergency_braking");
    assert_eq!(t.scenario_duration_ms, 180_000);
    assert_eq!(t.scenario_start_ms, 2);
    let normal = Scenario::new(&scenario_config("normal_driving", 1, 4));
    normal.update_truck(&mut t, 1_000_000, 3, 3, Position(0, 0));
    assert_eq!(t.current_scenario, "normal_driving");
    assert_eq!(t.scenario_duration_ms, 240_000);
}

#[test]
fn default_fleet_numbers_its_trucks() {
    let sim = Simulator::new(simulator_config(vec![], vec![], 3), 0);
    assert_eq!(sim.truck_count(), 3);
    assert_eq!(sim.truck(0).config.id, "TRK-0001");
    assert_eq!(sim.truck(2).config.id, "TRK-0003");
    assert_eq!(sim.truck(2).config.model, "Model-X");
    assert_eq!(sim.truck(2).current_location, Position(37_776_900, -122_417_400));
    assert_eq!(sim.truck(1).current_speed, 60_000);
    assert_eq!(sim.truck(1).update_interval_ms, 1000);
    assert!(!sim.truck(1).config.ml_config.license_plate_detection);
}

#[test]
fn configured_trucks_replace_the_default_fleet() {
    let sim = Simulator::new(simulator_config(vec![], vec![truck_config("A", false), truck_config("B", true)], 7), 0);
    assert_eq!(sim.truck_count(), 2);
    assert_eq!(sim.truck(0).config.id, "A");
    assert_eq!(sim.truck(1).config.id, "B");
}

#[test]
fn stepping_a_truck_needs_a_scenario() {
    let mut idle = Simulator::new(simulator_config(vec![], vec![truck_config("A", false)], 0), 0);
    assert!(idle.step_truck(0, 5_000, 1, Position(5, 5)).is_none());
    assert_eq!(idle.truck(0).current_location, Position(40_000_000, -74_000_000));
    let mut sim = Simulator::new(
        simulator_config(
            vec![scenario_config("rapid_acceleration", 1, 2)],
            vec![truck_config("A", false), truck_config("B", false)],
            0,
        ),
        0,
    );
    let (state, _) = sim.step_truck(0, 5_000, 1, Position(5, 5)).unwrap();
    assert_eq!(state.truck_id, "A");
    assert_eq!(state.scenario, "rapid_acceleration");
    assert_eq!(state.speed_kmh, 63_000);
    assert_eq!(sim.truck(0).current_location, Position(5, 5));
    assert_eq!(sim.truck(1).current_location, Position(40_000_000, -74_000_000));
    assert_eq!(sim.truck(1).current_scenario, "normal_driving");
}

#[test]
fn latest_state_of_each_truck_reads_back() {
    let mut store = TruckStateStore::new();
    assert!(store.get("A").is_none());
    store.record(state_of("A", 10_000));
    store.record(state_of("B", 20_000));
    store.record(state_of("A", 30_000));
    assert_eq!(store.get("A").unwrap().speed_kmh, 30_000);
    assert_eq!(store.get("B").unwrap().speed_kmh, 20_000);
    assert!(store.get("C").is_none());
    let all = store.all();
    assert_eq!(all.len(), 2);
    assert_eq!(all[0].truck_id, "A");
    assert_eq!(all[1].truck_id, "B");
    let h = HttpHandler::new(8081);
    assert_eq!(h.port, 8081);
    assert!(h.state_store.all().is_empty());
}

#[test]
fn published_states_reach_the_telemetry_pipeline() {
    let h = MqttHandler::new(1883);
    assert_eq!(h.port, 1883);
    let topic = MqttHandler::topic_for("TRK-0001");
    assert_eq!(topic, "truck/TRK-0001/telemetry");
    assert_eq!(route_mqtt_topic(&topic), Routing::Dispatch(EventKind::Telemetry));
    assert_eq!(MqttHandler::client_id_for("TRK-0001"), "simulator-TRK-0001");
    assert_ne!(route_mqtt_topic(&MqttHandler::topic_for("a/b")), Routing::Dispatch(EventKind::Telemetry));
}

#[test]
fn simulator_errors_read_as_messages() {
    assert_eq!(SimulatorError::ConfigError("bad".to_string()).message(), "Configuration error: bad");
    assert_eq!(SimulatorError::MqttError("down".to_string()).message(), "MQTT error: down");
    assert_eq!(SimulatorError::HttpError("x".to_string()).message(), "HTTP error: x");
    assert_eq!(SimulatorError::WebSocketError("x".to_string()).message(), "WebSocket error: x");
    assert_eq!(SimulatorError::SimulationError("x".to_string()).message(), "Simulation error: x");
    assert_eq!(SimulatorError::TruckNotFound("T".to_string()).message(), "Truck not found: T");
    assert_eq!(SimulatorError::ScenarioNotFound("s".to_string()).message(), "Scenario not found: s");
    assert_eq!(SimulatorError::IoError("x".to_string()).message(), "IO error: x");
    assert_eq!(SimulatorError::SerializeError("x".to_string()).message(), "Serialization error: x");
    assert_eq!(SimulatorError::Closed.message(), "Simulator closed");
}


#[test]
fn drawn_alerts_follow_the_scenario_and_its_progress() {
    let a = alerts_for_draws("system_failure", 8, 10, 7, true, true);
    assert_eq!(a.len(), 2);
    assert_eq!(a[0].alert_type, "high_cpu_usage");
    assert_eq!(a[0].severity, AlertSeverity::Warning);
    assert_eq!(a[1].alert_type, "high_temperature");
    assert_eq!(a[1].severity, AlertSeverity::Critical);
    assert_eq!(a[1].message, "System temperature critical");
    assert_eq!(a[1].timestamp, 7);
    let early = alerts_for_draws("system_failure", 4, 10, 7, true, true);
    assert!(early.is_empty());
    let mid = alerts_for_draws("system_failure", 6, 10, 7, true, true);
    assert_eq!(mid.len(), 1);
    assert_eq!(mid[0].alert_type, "high_cpu_usage");
    let braking = alerts_for_draws("emergency_braking", 0, 0, 1, true, true);
    assert_eq!(braking.len(), 1);
    assert_eq!(braking[0].alert_type, "harsh_braking");
    let normal = alerts_for_draws("normal_driving", 0, 0, 1, false, true);
    assert_eq!(normal.len(), 1);
    assert_eq!(normal[0].alert_type, "network_latency");
    assert!(alerts_for_draws("normal_driving", 0, 0, 1, false, false).is_empty());
}

#[test]
fn drawn_commands_follow_the_scenario_and_the_pick() {
    let g = OtaGenerator::new("T1");
    assert!(g.command_for_draws("maintenance", 5, false, 0).is_none());
    let c = g.command_for_draws("maintenance", 5, true, 0).unwrap();
    assert_eq!(c.command_type, CommandType::UpdateFirmware);
    assert_eq!(c.command_id, "cmd-T1-firmware-5");
    assert_eq!(c.issued_at, 5);
    let c = g.command_for_draws("sharp_turn", 5, true, 2).unwrap();
    assert_eq!(c.command_type, CommandType::Shutdown);
    assert_eq!(c.command_id, "cmd-T1-Shutdown-5");
    assert_eq!(c.parameters, "{}");
    let c = g.command_for_draws("sharp_turn", 5, true, 3).unwrap();
    assert_eq!(c.command_type, CommandType::GetDiagnostics);
    let c = g.command_for_draws("system_failure", 9, true, 3).unwrap();
    assert_eq!(c.command_type, CommandType::UpdateConfig);
    assert_eq!(c.command_id, "cmd-T1-config-9");
}

#[test]
fn draw_odds_and_ranges_are_the_documented_ones() {
    assert_eq!(issue_odds("system_failure"), (3, 10));
    assert_eq!(issue_odds("maintenance"), (1, 5));
    assert_eq!(issue_odds("normal_driving"), (1, 20));
    assert_eq!(issue_odds("sharp_turn"), (1, 100));
    assert_eq!(command_pick_range(), (0, 4));
    assert_eq!(alert_draw_odds("system_failure"), ((3, 10), (1, 2)));
    assert_eq!(alert_draw_odds("emergency_braking"), ((1, 10), (0, 1)));
    assert_eq!(alert_draw_odds("normal_driving"), ((1, 100), (1, 200)));
    let r = sensor_ranges();
    assert_eq!((r.heading.lo, r.heading.hi), (0, 360_000));
    assert_eq!((r.satellites.lo, r.satellites.hi), (8, 12));
    assert_eq!((r.tire.temperature.lo, r.tire.temperature.hi), (-5_000, 15_000));
    let p = ml_plan("normal_driving");
    assert_eq!(p.first_odds, (1, 10));
    assert_eq!(p.second_odds, (1, 20));
    assert_eq!((p.second.value.lo, p.second.value.hi), (-5, 15));
    let p = ml_plan("license_plate");
    assert_eq!(p.first_odds, (1, 1));
    assert_eq!((p.first.value.lo, p.first.value.hi), (1000, 9999));
    assert_eq!(turn_odds(), ((1, 10), (-30_000, 30_000)));
    assert_eq!(drift_odds(), ((1, 5), (-2_000, 2_000)));
}

fn sample_draws() -> SensorDraws {
    let tire = TireDraws { pressure: 1_000, temperature: -2_000, battery: 5 };
    SensorDraws {
        altitude: -500,
        heading: 123_000,
        satellites: 9,
        rpm: 100,
        coolant: -3,
        fuel: 4,
        load: -10,
        throttle: 15,
        accel_x: -20,
        accel_y: 30,
        accel_z: 10,
        gyro_x: -700,
        gyro_y: 0,
        gyro_z: 999,
        front_left: tire,
        front_right: tire,
        rear_left: tire,
        rear_right: tire,
    }
}

#[test]
fn a_sample_is_its_draws_around_the_baseline() {
    let d = sensor_data_for_draws(1, 2, 90_000, "normal_driving", &sample_draws());
    assert_eq!(d.gps.altitude, 99_500);
    assert_eq!(d.gps.heading, 123_000);
    assert_eq!(d.gps.satellites, 9);
    assert_eq!(d.obd.rpm, 2_600);
    assert_eq!(d.obd.speed_kmh, 90);
    assert_eq!(d.obd.coolant_temp, 82);
    assert_eq!(d.obd.fuel_level, 79);
    assert_eq!(d.obd.engine_load, 40);
    assert_eq!(d.obd.throttle_pos, 45);
    assert_eq!((d.imu.accel_x, d.imu.accel_y, d.imu.accel_z), (30, 80, 990));
    assert_eq!((d.imu.gyro_x, d.imu.gyro_z), (-700, 999));
    assert_eq!(d.tpms.rear_right.pressure_psi, 33_000);
    assert_eq!(d.tpms.rear_right.temperature_c, 23_000);
    assert_eq!(d.tpms.rear_right.battery_percent, 95);
    let braking = sensor_data_for_draws(1, 2, 90_000, "emergency_braking", &sample_draws());
    assert_eq!(braking.obd.rpm, 2_000);
    assert_eq!((braking.imu.accel_x, braking.imu.accel_y, braking.imu.accel_z), (-800, 100, 980));
    assert_eq!(braking.gps.heading, 123_000);
}

#[test]
fn inferences_are_their_draws_around_the_model_baseline() {
    let g = MlGenerator::new("T7");
    let v = InferenceDraws { value: 50, confidence: -10, latency: 2_000 };
    let none = InferenceDraws { value: 0, confidence: 0, latency: 0 };
    let e = g.events_for_draws("drowsy_driver", 3, &MlDraws { first: true, second: false, first_values: v, second_values: none });
    assert_eq!(e.len(), 1);
    assert_eq!(e[0].event_id, "ml-T7-drowsiness-3");
    assert!(matches!(e[0].result, MlResult::Drowsiness { is_drowsy: true, eye_closure_ratio: 850 }));
    assert_eq!(e[0].confidence, 890);
    assert_eq!(e[0].latency_ms, 52_000);
    let plate = InferenceDraws { value: 4321, confidence: 0, latency: 0 };
    let e = g.events_for_draws("license_plate", 3, &MlDraws { first: true, second: false, first_values: plate, second_values: none });
    match &e[0].result {
        MlResult::LicensePlate { plate_text, .. } => assert_eq!(plate_text, "TRK-4321"),
        _ => panic!("expected a plate"),
    }
    let lane = InferenceDraws { value: 3, confidence: 0, latency: 0 };
    let e = g.events_for_draws("normal_driving", 3, &MlDraws { first: false, second: true, first_values: none, second_values: lane });
    assert_eq!(e.len(), 1);
    assert_eq!(e[0].model_name, "lane_departure");
    assert!(matches!(e[0].result, MlResult::LaneDeparture { is_departing: false, deviation_pixels: 13 }));
    assert_eq!(e[0].latency_ms, 42_000);
}

#[test]
fn a_truck_standing_still_stays_where_it_is() {
    let mut t = TruckSimulator::new(truck_config("TRK-5", false), 1000, 0);
    t.current_speed = 0;
    t.update_position(Position(1, 1));
    assert_eq!(t.current_location, Position(40_000_000, -74_000_000));
    t.current_speed = 10_000;
    let speed = t.current_speed;
    t.update_position(Position(1, 1));
    assert_eq!(t.current_location, Position(1, 1));
    assert!(speed > 0);
}
