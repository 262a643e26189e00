[package]
name = "nsite_gateway"
version = "0.1.0"
edition = "2021"
publish = false

[dependencies]
hex = "*"
url = "*"
nostr-sdk = "*"
reqwest = "*"
tokio = { version = "*", features = ["full"] }
