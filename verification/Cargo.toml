[package]
name = "cube_scan"
version = "0.1.0"
edition = "2021"
publish = false

[dependencies]
async-trait = "0.1"
chrono = "=0.4.39"
cubeclient = "*"
datafusion = { version = "8.0.0", default-features = false }
futures = "0.3"
log = "0.4"
serde_json = "1"
tokio = { version = "1", features = ["rt", "rt-multi-thread", "sync"] }
