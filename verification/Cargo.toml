[package]
name = "http_api_client"
version = "0.1.0"
edition = "2021"
publish = false

[dependencies]
serde_json = "*"
isahc = "*"
reqwest = { version = "*", default-features = false, features = ["blocking"] }
