[package]
name = "hyperliquid_monitor"
version = "0.1.0"
edition = "2021"
publish = false

[dependencies]
serde_json = "1"
jsonpath_lib = "0.3"
regex = "1"
serde_urlencoded = "0.7"
chrono = "0.4"
anyhow = "1"
log = "0.4"
env_logger = "0.10"
dotenv = "0.15"
clap = { version = "4", features = ["derive"] }
serde = { version = "1", features = ["derive"] }
tokio = { version = "1", features = ["full"] }
reqwest = { version = "0.11", default-features = false, features = ["json", "rustls-tls"] }
