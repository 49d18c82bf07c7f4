[package]
name = "otaflux"
version = "0.1.0"
edition = "2021"
publish = false

[dependencies]
anyhow = "1"
axum = "*"
bytes = "1"
clap = { version = "4", features = ["derive", "env"] }
crc32fast = "1"
flate2 = "1"
metrics = "*"
metrics-exporter-prometheus = "*"
oci-client = "*"
parking_lot = "0.12"
rumqttc = { version = "*", features = ["url"] }
semver = "1"
serde = { version = "1", features = ["derive"] }
serde_json = "1"
tar = "0.4"
tokio = { version = "1", features = ["full"] }
tokio-util = "0.7"
tower-http = { version = "*", features = ["trace"] }
tracing = "0.1"
tracing-subscriber = { version = "0.3", features = ["env-filter"] }
zstd = "*"
