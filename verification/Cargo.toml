[package]
name = "veritynet"
version = "0.1.0"
edition = "2021"
publish = false

[dependencies]
env_logger = "=0.11.11"
futures-util = "=0.3.34"
log = "=0.4.34"
rand = "=0.10.3"
serde = { version = "=1.0.229", features = ["derive"] }
serde_json = "=1.0.154"
tokio = { version = "=1.54.1", features = ["macros", "rt-multi-thread", "net", "sync"] }
tokio-tungstenite = "=0.30.0"
url = "=2.5.8"
webrtc = "=0.17.2"
