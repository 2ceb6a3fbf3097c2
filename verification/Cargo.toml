[package]
name = "icapture"
version = "0.1.0"
edition = "2021"
publish = false

[dependencies]
chrono = "=0.4.45"
clap = { version = "=4.6.7", features = ["derive"] }
env_logger = "=0.11.11"
log = "=0.4.34"
opencv = "=0.101.1"
serde = { version = "=1.0.229", features = ["derive"] }
serde_json = "=1.0.154"
thiserror = "=1.0.69"
tokio = { version = "=1.54.1", features = ["rt-multi-thread"] }
warp = "=0.3.7"
windows = { version = "=0.58.0", features = ["Win32_Foundation", "Win32_Media_MediaFoundation", "Win32_System_Com"] }
