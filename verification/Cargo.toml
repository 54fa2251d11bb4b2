[package]
name = "sbtc_bridge"
version = "0.1.0"
edition = "2021"
publish = false

[dependencies]
bitcoin = "0.32"
fake = "3"
rand = "0.8"
serde = { version = "1", features = ["derive"] }
