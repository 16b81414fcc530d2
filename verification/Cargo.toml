[package]
name = "ownserver"
version = "0.6.0"
edition = "2021"
publish = false

[dependencies]
anyhow = "1"
base64 = "=0.13.1"
chrono = { version = "=0.4.45", features = ["serde"] }
clap = { version = "=4.6.7", features = ["derive"] }
dashmap = "=5.5.3"
futures = "0.3"
jsonwebtoken = "=9.3.1"
log = "0.4"
metrics = "=0.22.4"
metrics-exporter-prometheus = "=0.13.1"
pretty_env_logger = "0.5"
rand = "=0.8.8"
reqwest = { version = "=0.11.27", default-features = false, features = ["json", "rustls-tls"] }
rmp-serde = "=1.3.1"
serde = { version = "=1.0.229", features = ["derive"] }
serde_json = { version = "=1.0.154", features = ["raw_value"] }
tokio = { version = "=1.54.1", features = ["full"] }
tokio-tungstenite = { version = "=0.20.1", features = ["rustls-tls-webpki-roots"] }
tokio-util = { version = "=0.7.20", features = ["codec"] }
tracing = "0.1"
tracing-subscriber = { version = "=0.3.23", features = ["env-filter"] }
url = "=2.5.8"
uuid = { version = "=1.29.0", features = ["v4", "serde"] }
warp = "=0.3.7"
