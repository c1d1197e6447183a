[package]
name = "feedcfg"
version = "0.1.0"
edition = "2021"
publish = false

[dependencies]
serde = "*"
serde_yaml = "*"
tgbot = "*"
tokio = { version = "*", features = ["fs"] }
