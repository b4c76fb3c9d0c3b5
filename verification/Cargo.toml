[package]
name = "age_filter"
version = "0.1.0"
edition = "2021"
publish = false

[dependencies]
anyhow = "*"
blake3 = "*"
env_logger = "*"
log = "*"
serde_json = "*"
