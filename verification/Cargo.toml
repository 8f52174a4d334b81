[package]
name = "newsapi"
version = "0.1.0"
edition = "2021"
publish = false

[dependencies]
serde_json = "1"
url = "2"
ureq = "2"
reqwest = { version = "0.12", default-features = false }
