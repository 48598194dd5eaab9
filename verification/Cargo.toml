[package]
name = "mcp_rag"
version = "0.1.0"
edition = "2021"
publish = false

[dependencies]
chrono = { version = "=0.4.45", features = ["serde"] }
convert_case = "=0.12.0"
serde = { version = "=1.0.229", features = ["derive"] }
serde_json = "=1.0.154"
thiserror = "=2.0.21"
clap = { version = "=4.6.7", features = ["derive"] }
tokio = { version = "=1.54.1", features = ["full"] }
tokio-util = "=0.7.20"
uuid = { version = "=1.29.1", features = ["v4"] }
eyre = "=0.6.14"
tracing = "=0.1.44"
tempfile = "=3.27.0"
