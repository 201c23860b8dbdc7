[package]
name = "gpt-cli"
version = "0.2.0"
edition = "2021"
publish = false

[dependencies]
clap = { version = "4", features = ["derive"] }
env_logger = "0.10"
hyper = { version = "0.14", features = ["full"] }
hyper-tls = "0.5"
log = "0.4"
serde = { version = "1", features = ["derive"] }
serde_json = "1"
spinners = "4"
tokio = { version = "1", features = ["full"] }
