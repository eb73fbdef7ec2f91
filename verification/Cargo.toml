[package]
name = "mqtt_v"
version = "0.1.0"
edition = "2021"
publish = false

[dependencies]
rumqttc = "0.20"
tokio = { version = "1", features = ["rt-multi-thread", "sync", "macros", "time"] }
serde = { version = "1", features = ["derive"] }
once_cell = "1"
tracing-subscriber = { version = "0.3", features = ["env-filter"] }
chrono = "0.4"
