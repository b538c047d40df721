[package]
name = "rgms_konfig"
version = "0.1.0"
edition = "2021"
publish = false

[dependencies]
chrono = "0.4"
csv = "1"
libmodbus = "*"
log = "0.4"
pretty_env_logger = "0.4"
serde = { version = "1", features = ["derive"] }
tokio-serial = "*"
