[package]
name = "haven_react"
version = "0.1.0"
edition = "2021"
publish = false

[dependencies]
serde_json = "1"
sha2 = "0.10"
serde = { version = "1", features = ["derive"] }
tokio = { version = "1", features = ["sync", "rt", "macros", "time"] }
anyhow = "1"
tracing = "0.1"
chrono = "0.4"
