[package]
name = "mcp_core"
version = "0.1.0"
edition = "2021"
publish = false

[dependencies]
serde_json = "=1.0.154"
serde = { version = "=1.0.229", features = ["derive"] }
url = "=2.5.8"
tokio = { version = "=1.54.1", features = ["full"] }
axum = "=0.7.9"
tower-http = { version = "=0.5.2", features = ["cors"] }
futures = "=0.3.34"
reqwest = { version = "=0.12.28", default-features = false, features = ["rustls-tls"] }
rusqlite = { version = "=0.32.1", features = ["bundled"] }
chrono = "=0.4.45"
dirs = "=5.0.1"
chromiumoxide = { version = "0.7", default-features = false, features = ["tokio-runtime"] }
image = "0.25"
base64 = "0.22"
