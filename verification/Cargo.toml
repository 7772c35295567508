[package]
name = "mpv_sponsorblock"
version = "0.1.0"
edition = "2021"
publish = false

[dependencies]
regex = "=1.13.1"
url = "=2.5.8"
sha2 = "=0.10.9"
hex = "=0.4.3"
cached = { version = "=4.0.3", default-features = false }
serde = { version = "=1.0.229", features = ["derive"] }
toml = "=0.8.23"
dirs = "=5.0.1"
log = "=0.4.34"
env_logger = "=0.11.11"
reqwest = { version = "=0.12.28", default-features = false, features = ["json", "rustls-tls"] }
tokio = { version = "=1.54.1", features = ["rt-multi-thread", "macros"] }
tokio-util = "=0.7.20"
async-channel = "=2.5.0"
mpv-client = "=0.6.2"
