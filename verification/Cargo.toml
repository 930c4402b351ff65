[package]
name = "godot_core"
version = "0.1.0"
edition = "2021"
publish = false

[dependencies]
glam = "*"
serde = { version = "=1.0.229", features = ["derive"] }

[dev-dependencies]
serde_json = "=1.0.154"
