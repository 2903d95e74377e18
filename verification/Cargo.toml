[package]
name = "giphy_bot"
version = "0.1.0"
edition = "2021"
publish = false

[dependencies]
serde_yaml = "*"
reqwest = { version = "*", default-features = false, features = ["blocking"] }
slack = "*"
