[package]
name = "platformer_core"
version = "0.1.0"
edition = "2021"
publish = false

[dependencies]
macroquad = { version = "0.4", default-features = false }
rapier2d = "0.18"
rhai = "1"
serde = { version = "1", features = ["derive"] }
serde_json = "1"
