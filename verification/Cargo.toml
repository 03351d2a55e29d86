[package]
name = "codex_executor"
version = "0.1.0"
edition = "2021"
publish = false

[dependencies]
serde_json = "1"
async-trait = "0.1"
uuid = { version = "1", features = ["v4"] }
sqlx = { version = "0.8", default-features = false, features = ["sqlite"] }
