[package]
name = "packet_relay"
version = "0.1.0"
edition = "2021"
publish = false

[dependencies]
sha2 = "*"
crossbeam-channel = "*"
serde = { version = "*", features = ["derive"] }
serde_json = "*"
