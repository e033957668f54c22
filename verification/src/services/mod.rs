pub mod alert_service;
pub mod dashboard_service;
pub mod ml_service;
pub mod ota_service;
pub mod truck_service;
pub mod telemetry_service;
