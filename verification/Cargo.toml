[package]
name = "uplink"
version = "0.1.0"
edition = "2021"
publish = false

[dependencies]
flume = "0.10"
log = "0.4"
rand = "0.8"
rumqttc = { version = "*", default-features = false }
serde = { version = "1", features = ["derive"] }
serde_json = "1"
thiserror = "1"
tokio = { version = "1", features = ["rt", "rt-multi-thread", "macros", "time", "sync"] }
tokio-stream = "0.1"
tokio-util = { version = "0.7", features = ["codec", "time"] }
