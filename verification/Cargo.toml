[package]
name = "obs_relay"
version = "0.1.0"
edition = "2021"
publish = false

[dependencies]
serde_json = "1"
lapin = { version = "*", default-features = false }
matrix_bot_api = "*"
config = { version = "0.11", default-features = false, features = ["toml"] }
anyhow = "1"
