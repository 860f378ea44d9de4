[package]
name = "agentloop"
version = "0.1.0"
edition = "2021"
publish = false

[dependencies]
uuid = { version = "=1.29.1", features = ["v4"] }
chrono = { version = "=0.4.45", features = ["serde"] }
dashmap = "=5.5.3"
serde = { version = "=1.0.229", features = ["derive"] }
serde_json = "=1.0.154"
tokio = { version = "=1.54.1", features = ["sync", "macros", "rt-multi-thread", "time"] }
actix-web = "=4.18.1"
actix = "=0.13.5"
actix-web-actors = "=4.3.1"
actix-cors = "=0.7.2"
log = "=0.4.35"
env_logger = "=0.11.11"
dotenvy = "=0.15.7"
thiserror = "=1.0.69"
anyhow = "=1.0.104"
