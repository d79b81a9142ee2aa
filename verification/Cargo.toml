[package]
name = "easee_status"
version = "0.1.0"
edition = "2021"
publish = false

[dependencies]
chrono = "0.4"
serde_json = "1"
serde = { version = "1", features = ["derive"] }
reqwest = { version = "0.11", features = ["json"] }
tokio = { version = "1", features = ["full"] }
rocket = { version = "0.5", features = ["json"] }
influxdb = { version = "0.7", features = ["derive"] }
tracing = "0.1"
tracing-appender = "0.2"
tracing-subscriber = "0.3"
