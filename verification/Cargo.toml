[package]
name = "listo_blocks"
version = "0.1.0"
edition = "2021"
publish = false

[dependencies]
bacnet-rs = "0.3"
rumqttc = { version = "*", default-features = false }
serde = { version = "1", features = ["derive"] }
serde_json = "1"
thiserror = "*"
tokio = { version = "1", features = ["full"] }
tracing = "0.1"
tracing-subscriber = { version = "0.3", features = ["env-filter"] }
