[package]
name = "sashiko"
version = "0.1.0"
edition = "2021"
publish = false

[dependencies]
anyhow = "1"
serde_json = "1"
tokio = { version = "1", features = ["fs", "process", "sync", "time", "rt", "macros"] }
tracing = "0.1"
