[package]
name = "ble-central-gateway"
version = "0.1.0"
edition = "2021"
publish = false

[dependencies]
uuid = "1"
async-trait = "0.1"
axum = "0.8"
btleplug = "0.11"
dbus = { version = "0.9", features = ["vendored"] }
clap = { version = "4", features = ["derive"] }
config = { version = "0.14", default-features = false, features = ["toml"] }
futures = "0.3"
rumqttc = { version = "0.24", default-features = false }
serde = { version = "1", features = ["derive"] }
serde_json = "1"
thiserror = "1"
tokio = { version = "1", features = ["full"] }
tracing = "0.1"
tracing-subscriber = { version = "0.3", features = ["env-filter"] }
