[package]
name = "mockable"
version = "0.1.0"
edition = "2021"
publish = false

[dependencies]
async-trait = "0.1"
axum = "0.6"
chrono = "0.4"
deadpool-postgres = "*"
mockall = "*"
open = "*"
serde_json = "1"
tokio = { version = "1", features = ["macros", "process", "rt-multi-thread", "sync"] }
tracing = "0.1"
uuid = { version = "1", features = ["v4"] }
