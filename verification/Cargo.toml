[package]
name = "acme_bot_remote"
version = "0.1.0"
edition = "2021"
publish = false

[dependencies]
url = "*"
serde_json = "*"
base64 = "*"
