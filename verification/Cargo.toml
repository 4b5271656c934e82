[package]
name = "llama_launcher"
version = "0.1.0"
edition = "2021"
publish = false

[dependencies]
serde = { version = "1", features = ["derive"] }
serde_json = { version = "1", features = ["preserve_order"] }
log = "0.4"
chrono = "0.4"
dirs = "*"
poll-promise = "*"
