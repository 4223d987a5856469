[package]
name = "macttc"
version = "0.9.9"
edition = "2021"
publish = false

[dependencies]
chrono = "=0.4.45"
dirs = "=5.0.1"
serde = { version = "=1.0.229", features = ["derive"] }
serde_json = "=1.0.154"
tokio = { version = "=1.54.1", features = ["fs", "io-util", "time", "rt"] }
reqwest = { version = "=0.12.28", default-features = false }
zip = { version = "=2.6.1", default-features = false, features = ["deflate"] }
tauri = { version = "=2.12.5", default-features = false, features = ["tray-icon"] }
