[package]
name = "wtg"
version = "0.3.0"
edition = "2021"
publish = false

[dependencies]
nvml-wrapper = "*"
serde = { version = "1", features = ["derive"] }
serde_json = "1"
toml = "*"
