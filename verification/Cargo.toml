[package]
name = "alfred_pinboard_rs"
version = "0.1.0"
edition = "2021"
publish = false

[dependencies]
url = "=2.5.8"
semver = "=1.0.28"
chrono = "=0.4.45"
alfred = "=4.0.2"
alfred-rs = "=0.7.1"
structopt = "=0.3.26"
serde = { version = "=1.0.229", features = ["derive"] }
serde_json = "=1.0.154"
dirs = "=5.0.1"
log = "=0.4.35"
env_logger = "=0.10.2"
