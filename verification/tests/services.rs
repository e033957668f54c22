use truck_fleet::models::alert::{Alert, AlertSeverity, AlertStatus, AlertType};
use truck_fleet::models::ota::{
    CommandStatus, CommandType, OtaStatus, OtaUpdate, RemoteCommand, UpdateMetadata,
    UpdatePriority, UpdateTarget,
};
use truck_fleet::models::truck::{CreateTruckRequest, Truck, TruckStatus, TruckSummary, UpdateTruckRequest};
use truck_fleet::services::alert_service::{acknowledged, resolved};
use truck_fleet::services::dashboard_service::fleet_counts;
use truck_fleet::services::ota_service::{progressed_update, reported_command};
use truck_fleet::services::telemetry_service::{camera_frame_paths, located_truck};
use truck_fleet::services::truck_service::{listed_summary, new_truck, truck_code, updated_truck};
use truck_fleet::storage::blob::{content_type, frame_key, BlobStore};
use truck_fleet::storage::cache::{cache_key, cache_ttl_secs, CachedRecord};
use truck_fleet::storage::document::{counts_as_in_progress, stat_windows};
use truck_fleet::storage::timeseries::telemetry_statistics;
use truck_fleet::storage::{storage_region, StorageRegion};

const ID: u128 = 0xfedc_ba98_7654_3210_0f1e_2d3c_4b5a_6978;

fn request(model: &str, plate: &str) -> CreateTruckRequest {
    CreateTruckRequest {
        model: model.to_string(),
        make: "Volvo".to_string(),
        year: "2022".to_string(),
        license_plate: plate.to_string(),
        vin: "1M8GDM9AXKP042788".to_string(),
        fleet_id: Some(9),
    }
}

fn truck() -> Truck {
    Truck {
        id: ID,
        truck_id: "TRK-FEDCBA98".to_string(),
        model: "FH16".to_string(),
        make: "Volvo".to_string(),
        year: "2022".to_string(),
        license_plate: "ABC-123".to_string(),
        vin: "1M8".to_string(),
        fleet_id: None,
        driver_id: None,
        status: TruckStatus::Online,
        last_seen: 10,
        latitude: 1,
        longitude: 2,
        created_at: 5,
        updated_at: 10,
    }
}

fn no_change() -> UpdateTruckRequest {
    UpdateTruckRequest {
        model: None,
        make: None,
        year: None,
        license_plate: None,
        vin: None,
        fleet_id: None,
        driver_id: None,
        status: None,
    }
}

fn alert() -> Alert {
    Alert {
        id: 1,
        alert_id: "alert-x".to_string(),
        truck_id: ID,
        alert_type: AlertType::OverSpeeding,
        severity: AlertSeverity::Warning,
        message: "Overspeeding detected".to_string(),
        triggered_at: 100,
        acknowledged_at: None,
        resolved_at: None,
        source: "telemetry_processor".to_string(),
        context: "{}".to_string(),
        actions: Vec::new(),
        status: AlertStatus::Triggered,
        created_at: 100,
        updated_at: 100,
    }
}

fn update() -> OtaUpdate {
    OtaUpdate {
        id: 1,
        update_id: "u-1".to_string(),
        truck_id: Some(ID),
        fleet_id: None,
        version: "2.1.0".to_string(),
        target: UpdateTarget::Firmware,
        url: "https://updates".to_string(),
        checksum: "c".to_string(),
        signature: "s".to_string(),
        size_bytes: 10,
        priority: UpdatePriority::High,
        requires_reboot: true,
        deadline: None,
        metadata: UpdateMetadata {
            description: "d".to_string(),
            author: "a".to_string(),
            release_notes: "r".to_string(),
            compatibility: vec![],
            estimated_apply_time_sec: 60,
        },
        status: OtaStatus::Pending,
        progress_percent: 0,
        started_at: None,
        completed_at: None,
        last_error: None,
        created_at: 1,
        updated_at: 1,
    }
}

fn summary(status: TruckStatus, active_alerts: i32, health_score: i64) -> TruckSummary {
    let mut s = listed_summary(&truck());
    s.status = status;
    s.active_alerts = active_alerts;
    s.health_score = health_score;
    s
}

#[test]
fn fleet_codes_are_the_uppercased_start_of_the_uuid() {
    assert_eq!(truck_code(ID), "TRK-FEDCBA98");
    assert_eq!(truck_code(0x0000_00ab_0000_0000_0000_0000_0000_0000), "TRK-000000AB");
}

#[test]
fn registration_assigns_a_code_and_starts_offline() {
    let t = new_truck(request("FH16", "ABC-123"), 77).ok().unwrap();
    assert!(t.truck_id.starts_with("TRK-"));
    assert_eq!(t.truck_id.len(), 12);
    assert!(t.truck_id[4..].chars().all(|c| c.is_ascii_digit() || ('A'..='F').contains(&c)));
    assert_eq!(t.model, "FH16");
    assert_eq!(t.fleet_id, Some(9));
    assert_eq!(t.status, TruckStatus::Offline);
    assert_eq!((t.last_seen, t.created_at, t.updated_at), (77, 77, 77));
    assert_eq!((t.latitude, t.longitude), (0, 0));
    assert_eq!(t.driver_id, None);
}

#[test]
fn registration_lists_every_field_out_of_bounds() {
    let e = new_truck(request("", "ABCDEFGHIJABCDEFGHIJABCDEFGHIJABCDEFGHIJABCDEFGHIJX"), 1).err().unwrap();
    assert_eq!(e.fields, vec!["model", "license_plate"]);
    let ok = new_truck(request(&"m".repeat(100), &"p".repeat(50)), 1);
    assert!(ok.is_ok());
}

#[test]
fn updates_change_only_what_they_set() {
    let mut r = no_change();
    r.model = Some("FH".to_string());
    r.status = Some(TruckStatus::Maintenance);
    r.driver_id = Some(4);
    let t = updated_truck(truck(), r, 50).ok().unwrap();
    assert_eq!(t.model, "FH");
    assert_eq!(t.make, "Volvo");
    assert_eq!(t.status, TruckStatus::Maintenance);
    assert_eq!(t.driver_id, Some(4));
    assert_eq!((t.created_at, t.updated_at, t.last_seen), (5, 50, 10));
    let mut bad = no_change();
    bad.vin = Some(String::new());
    bad.year = Some("y".repeat(51));
    let e = updated_truck(truck(), bad, 50).err().unwrap();
    assert_eq!(e.fields, vec!["year", "vin"]);
}

#[test]
fn an_empty_update_only_touches_the_update_time() {
    let before = truck();
    let t = updated_truck(truck(), no_change(), 99).ok().unwrap();
    assert_eq!(t.id, before.id);
    assert_eq!(t.truck_id, before.truck_id);
    assert_eq!(t.model, before.model);
    assert_eq!(t.license_plate, before.license_plate);
    assert_eq!(t.status, before.status);
    assert_eq!(t.fleet_id, before.fleet_id);
    assert_eq!((t.latitude, t.longitude, t.last_seen, t.created_at), (1, 2, 10, 5));
    assert_eq!(t.updated_at, 99);
}

#[test]
fn acknowledging_then_resolving_keeps_both_times() {
    let a = acknowledged(alert(), 200);
    assert_eq!(a.status, AlertStatus::Acknowledged);
    assert_eq!(a.acknowledged_at, Some(200));
    assert_eq!(a.updated_at, 200);
    let r = resolved(a, 300);
    assert_eq!(r.status, AlertStatus::Resolved);
    assert_eq!(r.acknowledged_at, Some(200));
    assert_eq!(r.resolved_at, Some(300));
    assert_eq!(r.updated_at, 300);
    assert_eq!(r.triggered_at, 100);
    assert_eq!(r.message, "Overspeeding detected");
}

#[test]
fn a_final_report_completes_an_update() {
    let u = progressed_update(update(), OtaStatus::Downloading, 40_000, None, 10);
    assert_eq!(u.status, OtaStatus::Downloading);
    assert_eq!(u.progress_percent, 40_000);
    assert_eq!(u.completed_at, None);
    assert_eq!(u.updated_at, 10);
    let done = progressed_update(u, OtaStatus::Failed, 40_000, Some("checksum".to_string()), 20);
    assert_eq!(done.completed_at, Some(20));
    assert_eq!(done.last_error, Some("checksum".to_string()));
    let rolled = progressed_update(done, OtaStatus::Rollback, 0, None, 30);
    assert_eq!(rolled.completed_at, Some(30));
    let again = progressed_update(rolled, OtaStatus::Pending, 0, None, 40);
    assert_eq!(again.completed_at, Some(30));
    assert_eq!(again.version, "2.1.0");
}

#[test]
fn a_command_report_completes_the_command() {
    let c = RemoteCommand {
        id: 1,
        command_id: "c-1".to_string(),
        truck_id: Some(ID),
        fleet_id: None,
        command_type: CommandType::Reboot,
        parameters: "{}".to_string(),
        issued_at: 1,
        deadline: None,
        requires_ack: true,
        status: CommandStatus::Pending,
        result: None,
        error: None,
        completed_at: None,
        created_at: 1,
        updated_at: 1,
    };
    let r = reported_command(c, CommandStatus::Timeout, None, Some("late".to_string()), 9);
    assert_eq!(r.status, CommandStatus::Timeout);
    assert_eq!(r.completed_at, Some(9));
    assert_eq!(r.error, Some("late".to_string()));
    assert_eq!(r.command_type, CommandType::Reboot);
}

#[test]
fn fleet_figures_count_statuses_and_average_scores() {
    let trucks = vec![
        summary(TruckStatus::Online, 2, 90_000),
        summary(TruckStatus::Online, 0, 80_000),
        summary(TruckStatus::Maintenance, 1, 71_000),
        summary(TruckStatus::Inactive, 0, 10_000),
    ];
    let c = fleet_counts(&trucks);
    assert_eq!((c.total, c.online, c.offline, c.maintenance, c.with_alerts), (4, 2, 0, 1, 2));
    assert!(c.online + c.offline + c.maintenance <= c.total);
    assert_eq!(c.avg_health_score, Some(62_750));
    assert_eq!(fleet_counts(&vec![]).avg_health_score, None);
    let negative = fleet_counts(&vec![summary(TruckStatus::Offline, 0, -5), summary(TruckStatus::Offline, 0, -2)]);
    assert_eq!(negative.avg_health_score, Some(-3));
}

#[test]
fn listing_lines_have_full_health_and_no_motion() {
    let s = listed_summary(&truck());
    assert_eq!(s.truck_id, "TRK-FEDCBA98");
    assert_eq!(s.speed_kmh, None);
    assert_eq!(s.heading, None);
    assert_eq!(s.active_alerts, 0);
    assert_eq!(s.health_score, 100_000);
}

#[test]
fn location_updates_move_the_truck() {
    let t = located_truck(truck(), 7, 8, 60, 61);
    assert_eq!((t.latitude, t.longitude, t.last_seen, t.updated_at), (7, 8, 60, 61));
    assert_eq!(t.model, "FH16");
}

#[test]
fn frames_are_stored_under_the_truck() {
    let (image, thumb) = camera_frame_paths(ID, "front", 0x1);
    assert_eq!(image, "trucks/fedcba98-7654-3210-0f1e-2d3c4b5a6978/camera/front/00000000-0000-0000-0000-000000000001.jpg");
    assert_eq!(thumb, "trucks/fedcba98-7654-3210-0f1e-2d3c4b5a6978/camera/front/00000000-0000-0000-0000-000000000001_thumb.jpg");
    assert_eq!(
        frame_key(ID, "2024/05/01", 0x2, "png"),
        "trucks/fedcba98-7654-3210-0f1e-2d3c4b5a6978/frames/2024/05/01/00000000-0000-0000-0000-000000000002.png"
    );
    assert_eq!(content_type("jpg"), "image/jpeg");
    assert_eq!(content_type("jpeg"), "image/jpeg");
    assert_eq!(content_type("png"), "image/png");
    assert_eq!(content_type("h264"), "video/h264");
    assert_eq!(content_type("bmp"), "application/octet-stream");
    let store = BlobStore::new("frames");
    assert_eq!(store.generate_presigned_url("a/b.jpg", 3600), "https://frames/a/b.jpg?expires=3600");
    assert_eq!(store.generate_presigned_url("k", -1), "https://frames/k?expires=-1");
}

#[test]
fn cache_keys_name_the_kind_and_the_id() {
    assert_eq!(cache_key(CachedRecord::Telemetry, ID), "telemetry:fedcba98-7654-3210-0f1e-2d3c4b5a6978");
    assert_eq!(cache_key(CachedRecord::MlEvent, 1), "ml_event:00000000-0000-0000-0000-000000000001");
    assert_eq!(cache_key(CachedRecord::Truck, 2), "truck:00000000-0000-0000-0000-000000000002");
    assert_eq!(cache_ttl_secs(CachedRecord::Telemetry), 300);
    assert_eq!(cache_ttl_secs(CachedRecord::HealthStatus), 300);
    assert_eq!(cache_ttl_secs(CachedRecord::Alert), 3600);
    assert_eq!(cache_ttl_secs(CachedRecord::Truck), 3600);
}

#[test]
fn regions_are_known_or_custom() {
    assert!(matches!(storage_region("us-east-1", "http://x"), StorageRegion::UsEast1));
    assert!(matches!(storage_region("us-west-2", "http://x"), StorageRegion::UsWest2));
    match storage_region("local", "http://minio:9000") {
        StorageRegion::Custom { name, endpoint } => {
            assert_eq!(name, "local");
            assert_eq!(endpoint, "http://minio:9000");
        }
        _ => panic!("expected a custom region"),
    }
}

#[test]
fn statistics_look_back_a_day_a_week_and_a_month() {
    let w = stat_windows(3_000_000_000_000_000_000);
    assert_eq!(w.last_24_hours, 3_000_000_000_000_000_000 - 86_400_000_000_000);
    assert_eq!(w.last_7_days, 3_000_000_000_000_000_000 - 604_800_000_000_000);
    assert_eq!(w.last_30_days, 3_000_000_000_000_000_000 - 2_592_000_000_000_000);
    assert!(counts_as_in_progress(OtaStatus::Downloading));
    assert!(counts_as_in_progress(OtaStatus::Verifying));
    assert!(counts_as_in_progress(OtaStatus::Applying));
    assert!(!counts_as_in_progress(OtaStatus::Pending));
    assert!(!counts_as_in_progress(OtaStatus::Success));
}

#[test]
fn telemetry_statistics_are_reference_figures() {
    let s = telemetry_statistics(ID, 1, 2);
    assert_eq!((s.truck_id, s.start_time, s.end_time), (ID, 1, 2));
    assert_eq!(s.avg_speed_kmh, 60_000);
    assert_eq!(s.harsh_braking_events, 5);
}
