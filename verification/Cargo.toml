[package]
name = "ha_companion"
version = "0.1.0"
edition = "2021"
publish = false

[dependencies]
serde = { version = "=1.0.229", features = ["derive"] }
serde_json = "=1.0.154"
toml = "=0.9.8"
url = "=2.5.8"
tokio = { version = "=1.54.1", features = ["time", "macros", "rt-multi-thread"] }
tokio-tungstenite = "=0.30.0"
futures-util = "=0.3.34"
