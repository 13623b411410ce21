[package]
name = "wirecli"
version = "0.1.0"
edition = "2021"
publish = false

[dependencies]
anyhow = "*"
async-nats = "*"
clap = { version = "*", features = ["derive"] }
env_logger = "*"
futures = "*"
log = "*"
tokio = { version = "*", features = ["rt-multi-thread", "macros"] }
tokio-modbus = "*"
