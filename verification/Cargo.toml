[package]
name = "lognet"
version = "0.1.0"
edition = "2021"
publish = false

[dependencies]
anyhow = "*"
bytes = "*"
flexi_logger = "*"
log = "*"
reqwest = { version = "*", default-features = false }
serde = "*"
serde_json = "*"
