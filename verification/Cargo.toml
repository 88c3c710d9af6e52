[package]
name = "sesh"
version = "0.1.8"
edition = "2021"
publish = false

[dependencies]
anyhow = "1"
chrono = "0.4"
clap = { version = "4", features = ["derive"] }
dashmap = "5.5"
dialoguer = { version = "0.11", features = ["fuzzy-select"] }
dirs = "5"
env_logger = "0.10"
libc = "0.2"
log = "0.4"
prettytable-rs = "0.10"
prost = "0.12"
serde = { version = "1", features = ["derive"] }
serde_json = "1"
termion = "2"
tokio = { version = "1", features = ["full"] }
tokio-stream = { version = "0.1", features = ["net"] }
tonic = "0.11"
tower = "0.4"
