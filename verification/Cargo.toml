[package]
name = "ilos_proxy"
version = "0.1.0"
edition = "2021"
publish = false

[dependencies]
regex = "1"
scraper = "*"
serde = { version = "1", features = ["derive"] }
serde_urlencoded = "0.7"
worker = "*"
