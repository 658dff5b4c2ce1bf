[package]
name = "tms_keycmd"
version = "0.1.0"
edition = "2021"
publish = false

[dependencies]
attohttpc = "*"
figment = { version = "*", features = ["toml"] }
fs-mistrust = "*"
log = "*"
log4rs = "*"
serde_json = "*"
