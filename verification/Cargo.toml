[package]
name = "axact"
version = "0.2.2"
edition = "2021"
publish = false

[dependencies]
axum = { version = "*", features = ["ws"] }
clap = "*"
nvml-wrapper = "*"
serde = { version = "*", features = ["derive"] }
serde_json = "*"
serde_with = "*"
sysinfo = "*"
systemstat = "*"
tokio = { version = "*", features = ["full"] }
tokio-util = { version = "*", features = ["io"] }
tracing-subscriber = "*"
