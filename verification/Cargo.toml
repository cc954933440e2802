[package]
name = "ai_worker"
version = "0.1.0"
edition = "2021"
publish = false

[dependencies]
chrono = "0.4"
lru = "0.12"
md5 = "0.7"
serde = { version = "1", features = ["derive"] }
serde_json = "1"
tracing = "0.1"
