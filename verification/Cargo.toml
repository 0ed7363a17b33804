[package]
name = "open_context"
version = "0.1.0"
edition = "2021"
publish = false

[dependencies]
chrono = "=0.4.45"
uuid = { version = "=1.29.0", features = ["v4"] }
serde = { version = "=1.0.229", features = ["derive"] }
serde_json = "=1.0.154"
rusqlite = { version = "=0.41.0", features = ["bundled"] }
log = "=0.4.34"
tokio = { version = "=1.54.1", features = ["rt", "time", "sync", "fs"] }
dirs = "=7.0.0"
anyhow = "=1.0.104"
tauri = { version = "=2.12.5", default-features = false }
simplelog = "0.12"
notify = "*"
ignore = "0.4"
lazy_static = "1"
