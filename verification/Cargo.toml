[package]
name = "stud_bridge"
version = "0.1.0"
edition = "2021"
publish = false

[dependencies]
tokio = { version = "=1.53.2", features = ["full"] }
warp = "=0.3.7"
reqwest = { version = "=0.13.5", default-features = false, features = ["stream"] }
bytes = "=1.12.1"
futures-util = "=0.3.34"
serde = { version = "=1.0.229", features = ["derive"] }
serde_json = "=1.0.151"
parking_lot = "=0.12.5"
tokio-stream = { version = "=0.1.19", features = ["net"] }
dirs = "=7.0.0"
