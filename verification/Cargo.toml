[package]
name = "ofi_engine_rust"
version = "0.1.0"
edition = "2021"
publish = false

[dependencies]
url = "2"
anyhow = "1"
chrono = "0.4"
colored = "2"
env_logger = "0.11"
futures-util = "0.3"
log = "0.4"
pyo3 = { version = "0.22", features = ["auto-initialize"] }
rustls = { version = "0.23", default-features = false, features = ["ring", "std", "tls12", "logging"] }
serde = { version = "1", features = ["derive"] }
serde_json = "1"
tokio = { version = "1", features = ["full"] }
tokio-tungstenite = { version = "0.26", features = ["rustls-tls-webpki-roots"] }
toml = "0.8"
