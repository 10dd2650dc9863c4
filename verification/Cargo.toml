[package]
name = "tracing_replay"
version = "0.1.0"
edition = "2021"
publish = false

[dependencies]
tracing = "*"
tracing-core = "*"
tracing-subscriber = "*"
serde = { version = "*", features = ["derive"] }
serde_json = "*"
