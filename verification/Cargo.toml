[package]
name = "alduin"
version = "0.1.0"
edition = "2021"
publish = false

[dependencies]
anyhow = "=1.0.104"
chrono = "=0.4.45"
reqwest = "=0.12.28"
serde_json = "=1.0.154"
serenity = "=0.12.5"
tokio = { version = "=1.54.1", features = ["rt", "sync", "macros"] }
tracing = "=0.1.44"
