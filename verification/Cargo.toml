[package]
name = "mukduk"
version = "0.1.0"
edition = "2021"
publish = false

[dependencies]
env_logger = "*"
hyper = { version = "0.14", features = ["full"] }
log = "0.4"
serde = { version = "*", features = ["derive"] }
tokio = { version = "1", features = ["full"] }
toml = "*"
