[package]
name = "wizard"
version = "0.1.0"
edition = "2021"
publish = false

[dependencies]
anyhow = "1"
local-ip-address = "*"
rand = "0.8"
serde = { version = "1", features = ["derive"] }
serde_json = "1"
strum = "*"
strum_macros = "*"
