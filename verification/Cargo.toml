[package]
name = "postal_address_converter"
version = "0.1.0"
edition = "2021"
publish = false

[dependencies]
celes = "=2.8.2"
anyhow = "=1.0.104"
serde = { version = "=1.0.229", features = ["derive"] }
serde_json = "=1.0.151"
clap = { version = "=4.6.7", features = ["derive"] }
uuid = { version = "=1.27.0", features = ["v4"] }
