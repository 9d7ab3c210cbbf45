[package]
name = "srt_ingest"
version = "0.1.0"
edition = "2021"
publish = false

[dependencies]
anyhow = "1"
axum = "*"
tokio = { version = "1", features = ["rt", "net", "macros"] }
tracing = "*"
tracing-subscriber = "*"
