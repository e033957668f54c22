use truck_fleet::ingestion::kafka::KafkaIngestionHandler;
use truck_fleet::ingestion::mqtt::MqttIngestionHandler;
use truck_fleet::ingestion::websocket::WebSocketIngestionHandler;
use truck_fleet::ingestion::{
    route_kafka_topic, route_mqtt_topic, route_websocket_type, EventKind, IngestionEvent, Routing,
};
use truck_fleet::config::{
    AuthSettings, DatabaseSettings, MessageQueueSettings, ServerConfig, ServerSettings,
    StorageSettings, TelemetrySettings,
};
use truck_fleet::models::alert::{ActionType, Alert, AlertSeverity, AlertStatus, AlertType};
use truck_fleet::models::health::{
    AlertSeverity as DeviceSeverity, HealthAlert, HealthEventMetadata, HealthStatus,
    HealthStatusType, LoadAverage, ResourceUsage,
};
use truck_fleet::models::ml::{HardwareType, MlEvent, MlEventMetadata, MlResult, SensorContext};
use truck_fleet::models::telemetry::{
    GpsData, ImuData, ObdData, SensorData, TelemetryData, TireSensor, TpmsData,
};
use truck_fleet::processing::alerts::{draft_for, AlertProcessor, AlertRule};
use truck_fleet::processing::ml::MlProcessor;
use truck_fleet::processing::ProcessingManager;
use truck_fleet::realtime::websocket::WebSocketServer;
use truck_fleet::services::ml_service::is_alert_event;
use truck_fleet::services::truck_service::{average_score, calculate_health_score};

const TRUCK: u128 = 0x0123_4567_89ab_cdef_0123_4567_89ab_cdef;

fn tire() -> TireSensor {
    TireSensor { pressure_psi: 32_000, temperature_c: 25_000, battery_percent: 90, alert: false }
}

fn telemetry(speed_kmh: i64, ax: i32, ay: i32, az: i32) -> TelemetryData {
    TelemetryData {
        id: 1,
        truck_id: TRUCK,
        timestamp: 1_000,
        latitude: 40_000_000,
        longitude: -74_000_000,
        speed_kmh,
        heading: 90_000,
        sensors: SensorData {
            gps: GpsData {
                latitude: 40_000_000,
                longitude: -74_000_000,
                altitude: 100_000,
                speed_kmh,
                heading: 90_000,
                satellites: 9,
                fix_quality: 1,
            },
            obd: ObdData { rpm: 1500, speed_kmh: 50, coolant_temp: 85, fuel_level: 75, engine_load: 50, throttle_pos: 30 },
            imu: ImuData { accel_x: ax, accel_y: ay, accel_z: az, gyro_x: 0, gyro_y: 0, gyro_z: 0 },
            tpms: TpmsData { front_left: tire(), front_right: tire(), rear_left: tire(), rear_right: tire() },
        },
        cameras: None,
        scenario: None,
        created_at: 1_000,
    }
}

fn context(speed_kmh: i64, time_of_day: &str) -> SensorContext {
    SensorContext {
        speed_kmh,
        acceleration: 0,
        steering_angle: 0,
        gps_lat: 0,
        gps_lon: 0,
        time_of_day: time_of_day.to_string(),
    }
}

fn ml_event(result: MlResult, confidence: i64, temperature_c: i64) -> MlEvent {
    MlEvent {
        id: 2,
        event_id: "e-1".to_string(),
        truck_id: TRUCK,
        model_name: "drowsiness".to_string(),
        model_version: "1.0".to_string(),
        timestamp: 5,
        result,
        confidence,
        calibrated_confidence: confidence,
        latency_ms: 40_000,
        hardware_used: HardwareType::Cpu,
        metadata: MlEventMetadata {
            device_id: "dev".to_string(),
            truck_id: "TRK-1".to_string(),
            route_id: "r".to_string(),
            driver_id: "d".to_string(),
            camera_id: "c".to_string(),
            frame_timestamp: 5,
            sensor_context: None,
            cpu_usage_percent: 0,
            gpu_usage_percent: 0,
            memory_used_bytes: 0,
            temperature_c,
            model_checksum: "x".to_string(),
            retry_count: 0,
            fallback_reason: None,
        },
        created_at: 5,
    }
}

fn device_alert(severity: DeviceSeverity) -> HealthAlert {
    HealthAlert {
        alert_id: "a".to_string(),
        alert_type: "t".to_string(),
        severity,
        message: "m".to_string(),
        triggered_at: 0,
        source: "s".to_string(),
        recommended_action: "r".to_string(),
    }
}

fn health(cpu: i64, memory: i64, disk: i64, temperature: i64, alerts: Vec<HealthAlert>) -> HealthStatus {
    HealthStatus {
        id: 3,
        truck_id: TRUCK,
        timestamp: 7,
        status: HealthStatusType::Normal,
        resources: ResourceUsage {
            cpu_percent: cpu,
            cpu_cores: 4,
            memory_percent: memory,
            memory_used_mb: 1,
            memory_total_mb: 2,
            memory_available_mb: 1,
            swap_percent: 0,
            disk_percent: disk,
            disk_used_gb: 1,
            disk_total_gb: 2,
            disk_available_gb: 1,
            temperature_c: temperature,
            thermal_throttling: false,
            uptime_sec: 10,
            load_average: LoadAverage(0, 0, 0),
        },
        tasks: Vec::new(),
        alerts,
        actions_taken: Vec::new(),
        metadata: HealthEventMetadata {
            device_id: "dev".to_string(),
            version: "1".to_string(),
            hostname: "h".to_string(),
            ip_address: "10.0.0.1".to_string(),
            mac_address: "m".to_string(),
            location: None,
            hardware_model: "x".to_string(),
        },
        created_at: 7,
    }
}

fn server_config() -> ServerConfig {
    ServerConfig {
        server: ServerSettings {
            bind_address: "0.0.0.0".to_string(),
            http_port: 8080,
            websocket_port: 8081,
            metrics_port: 9090,
            max_connections: 100,
            request_timeout_sec: 30,
        },
        database: DatabaseSettings {
            mongodb_uri: "mongodb://localhost".to_string(),
            mongodb_database: "trucks".to_string(),
            redis_uri: "redis://localhost".to_string(),
            influxdb_url: "http://localhost:8086".to_string(),
            influxdb_org: "org".to_string(),
            influxdb_bucket: "bucket".to_string(),
            influxdb_token: "token".to_string(),
        },
        message_queue: MessageQueueSettings {
            kafka_brokers: vec![],
            kafka_topic: "telemetry".to_string(),
            mqtt_broker: "".to_string(),
            mqtt_username: None,
            mqtt_password: None,
        },
        storage: StorageSettings {
            s3_bucket: "frames".to_string(),
            s3_region: "us-east-1".to_string(),
            s3_endpoint: "http://localhost:9000".to_string(),
            s3_access_key: "k".to_string(),
            s3_secret_key: "s".to_string(),
        },
        auth: AuthSettings {
            jwt_secret: "SECRET-REDACTED".to_string(),
            jwt_expiry_hours: 24,
            admin_username: "admin".to_string(),
            admin_password_hash: "h".to_string(),
        },
        telemetry: TelemetrySettings {
            enable_tracing: true,
            enable_metrics: true,
            log_level: "info".to_string(),
        },
    }
}

/// The context each test alert carries: the name of the rule that raised it.
fn ctx(rule: AlertRule) -> String {
    format!("{:?}", rule)
}

const ALL_RULES: [AlertRule; 12] = [
    AlertRule::HarshBraking,
    AlertRule::RapidAcceleration,
    AlertRule::OverSpeeding,
    AlertRule::DrowsyDriver,
    AlertRule::LaneDeparture,
    AlertRule::CargoTamper,
    AlertRule::TemperatureCritical,
    AlertRule::TemperatureHigh,
    AlertRule::DiskCritical,
    AlertRule::DiskLow,
    AlertRule::CpuCritical,
    AlertRule::CpuHigh,
];

fn rules_of(alerts: &[Alert]) -> Vec<AlertRule> {
    alerts
        .iter()
        .map(|a| *ALL_RULES.iter().find(|r| ctx(**r) == a.context).expect("a rule's context"))
        .collect()
}

#[test]
fn mqtt_topics_route_by_their_third_segment() {
    assert_eq!(route_mqtt_topic("truck/abc/telemetry"), Routing::Dispatch(EventKind::Telemetry));
    assert_eq!(route_mqtt_topic("truck/abc/alert"), Routing::Dispatch(EventKind::Alert));
    assert_eq!(route_mqtt_topic("truck/abc/ml"), Routing::Dispatch(EventKind::MlEvent));
    assert_eq!(route_mqtt_topic("truck/abc/health"), Routing::Dispatch(EventKind::HealthStatus));
    assert_eq!(route_mqtt_topic("truck/abc/gps"), Routing::UnknownType);
    assert_eq!(route_mqtt_topic("truck/abc"), Routing::Ignored);
    assert_eq!(route_mqtt_topic(""), Routing::Ignored);
}

#[test]
fn kafka_topics_route_by_their_ending() {
    assert_eq!(route_kafka_topic("fleet.telemetry"), Routing::Dispatch(EventKind::Telemetry));
    assert_eq!(route_kafka_topic("fleet-alert"), Routing::Dispatch(EventKind::Alert));
    assert_eq!(route_kafka_topic("fleet_ml"), Routing::Dispatch(EventKind::MlEvent));
    assert_eq!(route_kafka_topic("health"), Routing::Dispatch(EventKind::HealthStatus));
    assert_eq!(route_kafka_topic("fleet.gps"), Routing::UnknownType);
}

#[test]
fn websocket_frames_carry_a_tag_that_routes_back() {
    for kind in [EventKind::Telemetry, EventKind::Alert, EventKind::MlEvent, EventKind::HealthStatus] {
        let frame = WebSocketServer::frame(kind, "{\"x\":1}");
        let tag = frame.strip_prefix("{\"type\":\"").unwrap().split('"').next().unwrap().to_string();
        assert_eq!(route_websocket_type(&tag), Routing::Dispatch(kind));
        assert!(frame.ends_with(",\"data\":{\"x\":1}}"));
    }
    assert_eq!(WebSocketServer::frame(EventKind::MlEvent, "null"), "{\"type\":\"ml_event\",\"data\":null}");
    assert_eq!(route_websocket_type("gps"), Routing::UnknownType);
    assert_eq!(WebSocketIngestionHandler::welcome_message(), "Connected to Truck Central Server");
}

#[test]
fn ingestion_handlers_keep_their_settings() {
    let mqtt = MqttIngestionHandler::new("tcp://broker:1883", Some("u".to_string()), None);
    assert_eq!(mqtt.broker(), "tcp://broker:1883");
    assert_eq!(mqtt.credentials(), Some(("u".to_string(), "".to_string())));
    assert_eq!(MqttIngestionHandler::client_id(TRUCK), "truck-central-server-01234567-89ab-cdef-0123-456789abcdef");
    let topics = MqttIngestionHandler::subscriptions();
    assert_eq!(topics[0], "truck/+/telemetry");
    let kafka = KafkaIngestionHandler::new(&["a:9092".to_string(), "b:9092".to_string()], "fleet");
    assert_eq!(kafka.topic(), "fleet");
    assert_eq!(kafka.bootstrap_servers(), "a:9092,b:9092");
    let settings = kafka.consumer_settings();
    assert_eq!(settings[0], ("group.id", "truck-central-server".to_string()));
    assert_eq!(settings[1], ("bootstrap.servers", "a:9092,b:9092".to_string()));
}

#[test]
fn telemetry_rules_fire_in_order() {
    let p = AlertProcessor::new();
    assert!(p.process_telemetry(&telemetry(50_000, 0, 0, 0), 0, ctx).is_empty());
    assert_eq!(rules_of(&p.process_telemetry(&telemetry(50_000, 0, 0, 980), 0, ctx)), vec![AlertRule::HarshBraking]);
    assert_eq!(
        rules_of(&p.process_telemetry(&telemetry(120_000, 700, 0, 0), 0, ctx)),
        vec![AlertRule::RapidAcceleration, AlertRule::OverSpeeding]
    );
    assert_eq!(rules_of(&p.process_telemetry(&telemetry(100_000, 600, 0, 0), 0, ctx)), Vec::<AlertRule>::new());
    assert_eq!(
        rules_of(&p.process_telemetry(&telemetry(100_001, 801, 0, 0), 0, ctx)),
        vec![AlertRule::HarshBraking, AlertRule::RapidAcceleration, AlertRule::OverSpeeding]
    );
}

#[test]
fn ml_rules_need_a_positive_result_and_confidence() {
    let p = AlertProcessor::new();
    let drowsy = ml_event(MlResult::Drowsiness { is_drowsy: true, eye_closure_ratio: 800 }, 850, 50_000);
    assert_eq!(rules_of(&p.process_ml_event(&drowsy, 0, ctx)), vec![AlertRule::DrowsyDriver]);
    let unsure = ml_event(MlResult::Drowsiness { is_drowsy: true, eye_closure_ratio: 800 }, 800, 50_000);
    assert!(p.process_ml_event(&unsure, 0, ctx).is_empty());
    let lane = ml_event(MlResult::LaneDeparture { is_departing: true, deviation_pixels: 60 }, 750, 50_000);
    assert_eq!(rules_of(&p.process_ml_event(&lane, 0, ctx)), vec![AlertRule::LaneDeparture]);
    let small = ml_event(MlResult::LaneDeparture { is_departing: true, deviation_pixels: 50 }, 750, 50_000);
    assert!(p.process_ml_event(&small, 0, ctx).is_empty());
    let cargo = ml_event(MlResult::CargoTamper { is_tampered: true, motion_score: 900 }, 900, 50_000);
    assert_eq!(rules_of(&p.process_ml_event(&cargo, 0, ctx)), vec![AlertRule::CargoTamper]);
    assert!(p.process_ml_event(&ml_event(MlResult::Unknown, 990, 0), 0, ctx).is_empty());
}

#[test]
fn health_rules_take_the_worse_tier() {
    let p = AlertProcessor::new();
    assert_eq!(
        rules_of(&p.process_health_status(&health(96_000, 50_000, 92_000, 85_000, vec![]), 0, ctx)),
        vec![AlertRule::TemperatureCritical, AlertRule::DiskLow, AlertRule::CpuCritical]
    );
    assert_eq!(
        rules_of(&p.process_health_status(&health(90_000, 50_000, 96_000, 75_000, vec![]), 0, ctx)),
        vec![AlertRule::TemperatureHigh, AlertRule::DiskCritical, AlertRule::CpuHigh]
    );
    assert!(p.process_health_status(&health(85_000, 50_000, 90_000, 70_000, vec![]), 0, ctx).is_empty());
}

#[test]
fn drafts_carry_the_policy_content() {
    let d = draft_for(AlertRule::DrowsyDriver);
    assert_eq!(d.alert_type, AlertType::DrowsyDriver);
    assert_eq!(d.severity, AlertSeverity::Emergency);
    assert_eq!(d.message, "Drowsy driver detected - immediate attention required");
    assert_eq!(d.source, "ml_processor");
    assert_eq!(d.actions.len(), 3);
    assert_eq!(d.actions[0].action_type, ActionType::TriggerBuzzer);
    assert_eq!(d.actions[1].target, "led_red");
    assert_eq!(d.actions[2].parameters, "{\"duration_ms\":10000,\"message\":\"DROWSY DRIVER - PULL OVER\"}");
    let disk = draft_for(AlertRule::DiskCritical);
    assert_eq!(disk.alert_type, AlertType::LowDiskSpace);
    assert_eq!(disk.source, "health_processor");
}

#[test]
fn issued_alerts_are_named_after_truck_rule_and_time() {
    let d = draft_for(AlertRule::HarshBraking);
    let a = d.issue(TRUCK, 42, "{\"speed\":50}".to_string());
    assert_eq!(a.alert_id, "alert-01234567-89ab-cdef-0123-456789abcdef-harsh_braking-42");
    assert_eq!(a.truck_id, TRUCK);
    assert_eq!(a.status, AlertStatus::Triggered);
    assert_eq!((a.triggered_at, a.created_at, a.updated_at), (42, 42, 42));
    assert_eq!(a.context, "{\"speed\":50}");
    assert_eq!(a.actions.len(), 1);
    let id = &a.actions[0].action_id;
    assert!(id.starts_with("action-"));
    assert!(id.ends_with("-buzzer"));
    assert_eq!(id.len(), "action-".len() + 36 + "-buzzer".len());
    assert_eq!(&id[7 + 14..7 + 15], "4");
    assert_eq!(a.actions[0].executed_at, None);
    assert!(!a.actions[0].success);
    let b = draft_for(AlertRule::TemperatureHigh).issue(TRUCK, -3, "{}".to_string());
    assert_eq!(b.alert_id, "alert-01234567-89ab-cdef-0123-456789abcdef-high_temperature--3");
    assert_ne!(a.id, b.id);
}

#[test]
fn an_alert_that_arrives_formed_raises_nothing_more() {
    let m = ProcessingManager::new(server_config());
    let a: Alert = draft_for(AlertRule::CargoTamper).issue(TRUCK, 1, "{}".to_string());
    assert!(m.process_event(IngestionEvent::Alert(a), 0, ctx).is_empty());
    let t = m.process_event(IngestionEvent::Telemetry(telemetry(150_000, 0, 0, 0)), 0, ctx);
    assert_eq!(rules_of(&t), vec![AlertRule::OverSpeeding]);
    let h = m.process_event(IngestionEvent::HealthStatus(health(99_000, 0, 0, 0, vec![])), 0, ctx);
    assert_eq!(rules_of(&h), vec![AlertRule::CpuCritical]);
}

#[test]
fn calibration_shaves_a_tenth_off_hot_devices() {
    let p = MlProcessor::new();
    let mut hot = ml_event(MlResult::Unknown, 900, 80_000);
    p.calibrate_confidence(&mut hot);
    assert_eq!(hot.calibrated_confidence, 810);
    let mut cool = ml_event(MlResult::Unknown, 900, 75_000);
    p.calibrate_confidence(&mut cool);
    assert_eq!(cool.calibrated_confidence, 900);
    let mut odd = ml_event(MlResult::Unknown, 855, 90_000);
    p.calibrate_confidence(&mut odd);
    assert_eq!(odd.calibrated_confidence, 769);
    assert!(odd.calibrated_confidence <= odd.confidence);
}

#[test]
fn fusion_only_turns_detections_on() {
    let p = MlProcessor::new();
    let mut night = ml_event(MlResult::Drowsiness { is_drowsy: false, eye_closure_ratio: 350 }, 900, 0);
    p.fuse_with_sensor_data(&mut night, &context(60_000, "night"));
    assert!(matches!(night.result, MlResult::Drowsiness { is_drowsy: true, eye_closure_ratio: 350 }));
    let mut day = ml_event(MlResult::Drowsiness { is_drowsy: false, eye_closure_ratio: 350 }, 900, 0);
    p.fuse_with_sensor_data(&mut day, &context(60_000, "day"));
    assert!(matches!(day.result, MlResult::Drowsiness { is_drowsy: false, .. }));
    let mut slow = ml_event(MlResult::Drowsiness { is_drowsy: false, eye_closure_ratio: 450 }, 900, 0);
    p.fuse_with_sensor_data(&mut slow, &context(20_000, "day"));
    assert!(matches!(slow.result, MlResult::Drowsiness { is_drowsy: true, .. }));
    let mut kept = ml_event(MlResult::Drowsiness { is_drowsy: true, eye_closure_ratio: 100 }, 900, 0);
    p.fuse_with_sensor_data(&mut kept, &context(60_000, "day"));
    assert!(matches!(kept.result, MlResult::Drowsiness { is_drowsy: true, .. }));
    let mut fast = ml_event(MlResult::LaneDeparture { is_departing: false, deviation_pixels: 31 }, 900, 0);
    p.fuse_with_sensor_data(&mut fast, &context(81_000, "day"));
    assert!(matches!(fast.result, MlResult::LaneDeparture { is_departing: true, deviation_pixels: 31 }));
    let before = rules_of(&AlertProcessor::new().process_ml_event(&kept, 0, ctx));
    assert_eq!(before, vec![AlertRule::DrowsyDriver]);
}

#[test]
fn alerting_inferences_count_as_alert_events() {
    let drowsy = ml_event(MlResult::Drowsiness { is_drowsy: true, eye_closure_ratio: 800 }, 850, 0);
    assert!(!AlertProcessor::new().process_ml_event(&drowsy, 0, ctx).is_empty());
    assert!(is_alert_event(&drowsy));
    let lane = ml_event(MlResult::LaneDeparture { is_departing: true, deviation_pixels: 40 }, 750, 0);
    assert!(is_alert_event(&lane));
    assert!(AlertProcessor::new().process_ml_event(&lane, 0, ctx).is_empty());
    assert!(!is_alert_event(&ml_event(MlResult::CargoTamper { is_tampered: true, motion_score: 1 }, 800, 0)));
}

#[test]
fn health_score_subtracts_overloads_and_alerts() {
    assert_eq!(calculate_health_score(&health(50_000, 50_000, 50_000, 50_000, vec![])), 100_000);
    assert_eq!(
        calculate_health_score(&health(
            90_000,
            50_000,
            50_000,
            75_000,
            vec![device_alert(DeviceSeverity::Critical), device_alert(DeviceSeverity::Warning)],
        )),
        60_000
    );
    assert_eq!(calculate_health_score(&health(50_000, 88_000, 50_000, 50_000, vec![])), 95_500);
    assert_eq!(calculate_health_score(&health(50_000, 88_001, 50_000, 50_000, vec![])), 95_499);
    assert_eq!(calculate_health_score(&health(100_000, 50_000, 100_000, 100_000, vec![device_alert(DeviceSeverity::Critical)])), 0);
    assert_eq!(calculate_health_score(&health(50_000, 50_000, 50_000, 50_000, vec![device_alert(DeviceSeverity::Info)])), 100_000);
}

#[test]
fn one_more_alert_never_raises_the_score() {
    let mut alerts = vec![];
    let mut last = calculate_health_score(&health(85_000, 90_000, 92_000, 72_000, alerts.clone()));
    for s in [DeviceSeverity::Warning, DeviceSeverity::Info, DeviceSeverity::Critical, DeviceSeverity::Critical] {
        alerts.push(device_alert(s));
        let now = calculate_health_score(&health(85_000, 90_000, 92_000, 72_000, alerts.clone()));
        assert!(now <= last);
        last = now;
    }
}

#[test]
fn average_score_has_a_default_without_reports() {
    assert_eq!(average_score(&None), 85_000);
    assert_eq!(average_score(&Some(health(40_000, 60_000, 70_000, 70_000, vec![]))), 51_250);
    assert_eq!(average_score(&Some(health(0, 0, 0, 60_000, vec![]))), 100_000);
    assert_eq!(average_score(&Some(health(100_000, 100_000, 100_000, 80_000, vec![]))), 12_500);
    assert_eq!(average_score(&Some(health(200_000, 200_000, 200_000, 80_000, vec![]))), 0);
}

#[test]
fn issued_alerts_belong_to_the_reading_s_truck() {
    let m = ProcessingManager::new(server_config());
    let t = m.process_event(IngestionEvent::Telemetry(telemetry(150_000, 0, 0, 0)), 5, |_| {
        "{\"speed_kmh\":150}".to_string()
    });
    assert_eq!(t.len(), 1);
    assert_eq!(t[0].truck_id, TRUCK);
    assert_eq!(t[0].alert_id, "alert-01234567-89ab-cdef-0123-456789abcdef-overspeeding-5");
    assert_eq!(t[0].context, "{\"speed_kmh\":150}");
    assert_eq!(t[0].status, AlertStatus::Triggered);
    let h = m.process_event(IngestionEvent::HealthStatus(health(99_000, 0, 0, 0, vec![])), 7, ctx);
    assert_eq!(h.len(), 1);
    assert_eq!(h[0].truck_id, TRUCK);
    assert_eq!(h[0].alert_id, "alert-01234567-89ab-cdef-0123-456789abcdef-high_cpu_usage-7");
    let none = m.process_event(IngestionEvent::Telemetry(telemetry(50_000, 0, 0, 0)), 9, ctx);
    assert!(none.is_empty());
}

fn targets(a: &Alert) -> Vec<(ActionType, String)> {
    a.actions.iter().map(|x| (x.action_type, x.target.clone())).collect()
}

#[test]
fn processors_issue_triggered_alerts_for_the_reading_s_truck() {
    let p = AlertProcessor::new();
    let h = p.process_health_status(&health(96_000, 50_000, 92_000, 85_000, vec![]), 11, ctx);
    assert_eq!(h.len(), 3);
    for a in &h {
        assert_eq!(a.truck_id, TRUCK);
        assert_eq!(a.status, AlertStatus::Triggered);
        assert!(a.acknowledged_at.is_none() && a.resolved_at.is_none());
        assert_eq!(a.source, "health_processor");
        assert_eq!(a.triggered_at, 11);
        for x in &a.actions {
            assert!(x.executed_at.is_none() && !x.success && x.error.is_none());
        }
    }
    assert!(h[0].alert_id.starts_with("alert-01234567-89ab-cdef-0123-456789abcdef-high_temperature-"));
    assert!(h[1].alert_id.starts_with("alert-01234567-89ab-cdef-0123-456789abcdef-low_disk_space-"));
    assert_eq!(targets(&h[2]), vec![(ActionType::LogToServer, "server".to_string())]);
    let drowsy = ml_event(MlResult::Drowsiness { is_drowsy: true, eye_closure_ratio: 800 }, 850, 50_000);
    let e = p.process_ml_event(&drowsy, 12, ctx);
    assert_eq!(e.len(), 1);
    assert_eq!(e[0].truck_id, TRUCK);
    assert_eq!(e[0].status, AlertStatus::Triggered);
    assert_eq!(e[0].source, "ml_processor");
    assert_eq!(
        targets(&e[0]),
        vec![
            (ActionType::TriggerBuzzer, "buzzer_1".to_string()),
            (ActionType::FlashLed, "led_red".to_string()),
            (ActionType::ShowOnDisplay, "display_1".to_string()),
        ]
    );
    let t = p.process_telemetry(&telemetry(150_000, 0, 0, 0), 13, ctx);
    assert_eq!(t.len(), 1);
    assert_eq!(t[0].truck_id, TRUCK);
    assert_eq!(t[0].status, AlertStatus::Triggered);
    assert_eq!(t[0].source, "telemetry_processor");
    assert_eq!(targets(&t[0]), vec![(ActionType::ShowOnDisplay, "display_1".to_string())]);
}
