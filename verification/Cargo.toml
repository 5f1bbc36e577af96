[package]
name = "connect"
version = "0.1.0"
edition = "2021"
publish = false

[dependencies]
dashmap = "*"
uuid = { version = "*", features = ["v4"] }
chrono = "0.4"
serde = { version = "1", features = ["derive"] }
serde_json = "1"
sysinfo = "*"
tokio = { version = "1", features = ["full"] }
futures = "0.3"
bytes = "1"
ffmpeg-next = "*"
