[package]
name = "human_bytes"
version = "0.1.0"
edition = "2021"
publish = false

[dependencies]
serde = { version = "1", features = ["derive"] }

[dev-dependencies]
hex = "0.4"
base64 = "0.13"
