[package]
name = "yt-dl-service"
version = "0.1.0"
edition = "2021"
publish = false

[dependencies]
file-owner = "*"
serde = { version = "1", features = ["derive"] }
serde_json = "1"
tokio = { version = "1", features = ["full"] }
tokio-cron-scheduler = "*"
tracing = "0.1"
tracing-appender = "0.2"
tracing-subscriber = "0.3"
