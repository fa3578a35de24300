[package]
name = "nifty"
version = "0.1.0"
edition = "2021"
publish = false

[dependencies]
hdk = "=0.0.100"
holo_hash = "=0.0.2-alpha.1"
rmp = "=0.8.10"
serde = { version = "=1.0.123", features = ["derive"] }
