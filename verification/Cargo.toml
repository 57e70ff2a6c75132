[package]
name = "gc_session"
version = "0.1.0"
edition = "2021"
publish = false

[dependencies]
anyhow = "=1.0.104"
clap = { version = "=4.6.7", features = ["derive", "env"] }
env_logger = "=0.11.11"
futures = "=0.3.34"
log = "=0.4.34"
prost = "=0.14.4"
reqwest = { version = "=0.13.5", features = ["json"] }
serde_json = "=1.0.154"
steam-vent = "=0.5.0"
steam-vent-proto-common = "=0.5.1"
steam-vent-proto-steam = "=0.5.2"
tokio = { version = "=1.54.1", features = ["full"] }
tryhard = "=0.5.2"
