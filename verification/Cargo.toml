[package]
name = "konnect"
version = "0.1.0"
edition = "2021"
publish = false

[dependencies]
anyhow = "1"
axum = { version = "0.8", default-features = false, features = ["http1", "json", "tokio"] }
notify = { version = "8", default-features = false }
serde_json = "1"
tauri = { version = "2", default-features = false }
thiserror = "2"
tokio = { version = "1", features = ["io-std", "io-util", "macros", "net", "rt-multi-thread", "sync"] }
tokio-stream = "0.1"
tower-http = { version = "0.6", features = ["cors"] }
tracing = { version = "0.1", default-features = false, features = ["std"] }
