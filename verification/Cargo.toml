[package]
name = "realtps_import"
version = "0.1.0"
edition = "2021"
publish = false

[dependencies]
anyhow = "1"
env_logger = "*"
futures = "0.3"
log = "0.4"
serde = "1"
serde_derive = "1"
structopt = "0.3"
tokio = { version = "1", features = ["full"] }
toml = "*"
