[package]
name = "spindle_monitor"
version = "0.1.0"
edition = "2021"
publish = false

[dependencies]
byteorder = "1"
chrono = "0.4"
uuid = { version = "1", features = ["v4"] }
prometheus = { version = "0.13", default-features = false }
serde = { version = "1", features = ["derive"] }
serde_json = "1"
toml = "0.8"
anyhow = "1"
tokio = { version = "1", features = ["full"] }
axum = { version = "0.7", features = ["ws"] }
tower-http = { version = "0.5", features = ["cors"] }
tracing = "0.1"
tracing-subscriber = { version = "0.3", features = ["env-filter"] }
futures = "0.3"
rustfft = "6"
rand = "0.8"
dashmap = "5"
once_cell = "1"
log = "0.4"
rumqttc = "0.24"
paho-mqtt = "0.12"
klickhouse = "*"
