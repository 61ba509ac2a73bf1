[package]
name = "chaseai"
version = "0.1.0"
edition = "2021"
publish = false

[dependencies]
regex = "=1.13.1"
serde = { version = "=1.0.229", features = ["derive"] }
serde_json = "=1.0.154"
serde_yaml = "=0.9.34"
toml = "=0.8.23"
axum = "=0.7.9"
tokio = { version = "=1.54.1", features = ["rt-multi-thread", "net", "sync", "time"] }
chrono = "=0.4.45"
anyhow = "=1.0.104"
if-addrs = "=0.15.0"
notify = "6"
