[package]
name = "lol_clip_tool"
version = "0.1.0"
edition = "2021"
publish = false

[dependencies]
serde = { version = "=1.0.229", features = ["derive"] }
serde_json = "=1.0.154"
chrono = "=0.4.45"
dirs = "=5.0.1"
notify-rust = "=4.18.2"
log = "=0.4.35"
flexi_logger = "=0.31.10"
tokio = { version = "=1.54.1", features = ["full"] }
futures-util = "=0.3.34"
tokio-tungstenite = "=0.30.0"
reqwest = { version = "=0.12.28", default-features = false, features = ["rustls-tls", "json"] }
sha2 = "0.10"
base64 = "=0.22.1"
