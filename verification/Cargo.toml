[package]
name = "spacebot"
version = "0.1.0"
edition = "2021"
publish = false

[dependencies]
anyhow = "=1.0.104"
arc-swap = "=1.9.3"
async-stream = "=0.3.6"
chrono = "=0.4.45"
chrono-tz = "=0.10.4"
dirs = "=6.0.0"
futures = "=0.3.34"
reqwest = { version = "=0.12.28", default-features = false, features = ["json", "stream"] }
rig-core = { version = "0.32", default-features = false }
serde = { version = "=1.0.229", features = ["derive"] }
serde_json = "=1.0.154"
tokio = { version = "1", features = ["sync", "time", "rt", "macros"] }
toml = "0.8"
tracing = "=0.1.44"
uuid = { version = "1", features = ["v4"] }
