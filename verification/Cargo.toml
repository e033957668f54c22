[package]
name = "truck_fleet"
version = "0.1.0"
edition = "2021"
publish = false

[dependencies]
rand = "=0.8.8"
uuid = { version = "=1.29.1", features = ["v4", "serde"] }
serde = { version = "=1.0.229", features = ["derive"] }
serde_json = "=1.0.154"
toml = "=0.8.23"
tokio = { version = "=1.54.1", features = ["full"] }
chrono = { version = "=0.4.45", features = ["serde"] }
tracing = "=0.1.44"
tracing-subscriber = { version = "=0.3.23", features = ["env-filter"] }
axum = { version = "=0.6.20", features = ["ws"] }
rumqttc = { version = "=0.24.0", features = ["url"] }
thiserror = "=1.0.69"
futures = "=0.3.34"
metrics = "=0.22.4"
metrics-exporter-prometheus = "=0.13.1"
mongodb = "=2.8.2"
redis = { version = "=0.25.5", features = ["tokio-comp"] }
bson = "=2.15.0"
tokio-tungstenite = "=0.20.1"
warp = "=0.3.7"
rdkafka = "=0.36.2"
rusoto_core = "=0.48.0"
rusoto_s3 = "=0.48.0"
influxdb2 = { version = "=0.5.2", default-features = false }
