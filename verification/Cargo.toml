[package]
name = "procwire-client"
version = "0.1.0"
edition = "2021"
publish = false

[dependencies]
bytes = "1"
rmp-serde = "1"
serde = { version = "1", features = ["derive"] }
serde_json = "1"
thiserror = "1"
tokio = { version = "1", features = ["full"] }
tokio-util = "0.7"
tracing = "0.1"

[dev-dependencies]
serde_bytes = "0.11"
