[package]
name = "better_uptime"
version = "0.1.0"
edition = "2021"
publish = false

[dependencies]
reqwest = "0.12"
serde_json = { version = "1", features = ["preserve_order"] }
thiserror = "1"
