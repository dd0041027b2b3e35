[package]
name = "coinlcd"
version = "0.1.0"
edition = "2021"
publish = false

[dependencies]
reqwest = { version = "*", default-features = false, features = ["blocking"] }
rppal = "*"
serde = { version = "*", features = ["derive"] }
serde_json = "*"
