[package]
name = "datame"
version = "0.1.0"
edition = "2021"
publish = false

[dependencies]
rand = "0.8"
serde_json = "1"
clap = "2"
log = "0.4"
env_logger = "0.10"
