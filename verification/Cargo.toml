[package]
name = "trading_gateway"
version = "0.1.0"
edition = "2021"
publish = false

[dependencies]
actix-web = "4"
anyhow = "1"
bytes = "1"
chrono = "0.4"
chrono-tz = "0.10"
env_logger = "0.11"
envmnt = "0.10"
prost = "0.13"
regex = "1"
serde = { version = "1", features = ["derive"] }
serde_json = "1"
tokio = { version = "1", features = ["macros", "rt-multi-thread", "sync", "time"] }
tokio-stream = "0.1"
tonic = "0.12"
