[package]
name = "real_estate_tracker"
version = "0.2.0"
edition = "2021"
publish = false

[dependencies]
anyhow = "1"
chrono = { version = "0.4", default-features = false, features = ["std", "clock"] }
dirs = "5"
serde = { version = "1", features = ["derive"] }
serde_json = "1"
tokio = { version = "1", features = ["process", "fs", "rt-multi-thread", "macros", "io-util"] }
tracing = "0.1"
tracing-subscriber = "0.3"
