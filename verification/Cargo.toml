[package]
name = "secretary"
version = "0.1.0"
edition = "2021"
publish = false

[dependencies]
poise = "0.5"
serde_yaml = "0.9"
chrono = "0.4"
rand = "0.8"
log = "0.4"
env_logger = "0.10"
tokio = { version = "1", features = ["macros", "rt-multi-thread"] }
