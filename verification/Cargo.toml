[package]
name = "arawn_engine"
version = "0.1.0"
edition = "2021"
publish = false

[dependencies]
serde = { version = "=1.0.229", features = ["derive"] }
serde_json = "=1.0.154"
similar = "=2.7.0"
toml = "=1.2.1"
dirs = "=7.0.0"
chrono = "=0.4.45"
tokio = { version = "1", features = ["process", "io-util", "time", "fs", "rt", "sync", "macros"] }
async-trait = "0.1"
uuid = { version = "1", features = ["v4"] }
futures = "0.3"
tracing = "0.1"
notify = "8"
