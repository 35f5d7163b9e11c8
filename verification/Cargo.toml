[package]
name = "alter-sendme"
version = "0.4.0"
edition = "2021"
publish = false

[dependencies]
anyhow = "1"
async-channel = "2"
directories = "6"
serde = { version = "1", features = ["derive"] }
serde_json = "1"
tokio = { version = "1", features = ["rt-multi-thread", "macros", "sync", "time"] }
tracing = "0.1"
tracing-subscriber = { version = "0.3", features = ["env-filter"] }
walkdir = "2"
