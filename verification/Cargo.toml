[package]
name = "superpilot"
version = "0.1.0"
edition = "2021"
publish = false

[dependencies]
prometheus = "0.13"
serde = { version = "1", features = ["derive"] }
serde_yaml = "0.9"
ureq = { version = "2", default-features = false }
