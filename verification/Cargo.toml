[package]
name = "toguru"
version = "0.1.0"
edition = "2021"
publish = false

[dependencies]
ahash = "*"
anyhow = "1"
argh = "*"
axum = "0.8"
http = "1"
log = "0.4"
parking_lot = "*"
rumqttc = { version = "0.24", default-features = false }
serde = { version = "1", features = ["derive"] }
serde_json = "1"
strum_macros = "*"
thiserror = "*"
tokio = { version = "1", features = ["full"] }
tokio-util = "*"
