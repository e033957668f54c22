pub mod alert;
pub mod health;
pub mod ml;
pub mod ota;
pub mod telemetry;
pub mod truck;
