[package]
name = "codex_usage_dock"
version = "0.1.0"
edition = "2021"
publish = false

[dependencies]
serde = { version = "1", features = ["derive"] }
serde_json = "1"
tokio = { version = "1", features = ["rt", "sync", "process", "io-util", "time", "macros"] }
active-win-pos-rs = "0.11"
