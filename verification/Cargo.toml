[package]
name = "uiaa"
version = "0.1.0"
edition = "2021"
publish = false

[dependencies]
clap = { version = "4", features = ["derive", "env"] }
figment = { version = "0.10", features = ["toml"] }
image = { version = "0.25", default-features = false, features = ["png", "jpeg", "gif", "webp"] }
ipaddress = "0.1"
rand = "0.8"
reqwest = { version = "0.12", default-features = false }
ruma = { version = "*", features = ["client-api"] }
serde = { version = "1", features = ["derive"] }
serde_json = "1"
toml = "0.8"
url = "2"
webpage = { version = "2", default-features = false }
