[package]
name = "wm_layout"
version = "0.1.0"
edition = "2021"
publish = false

[dependencies]
ambassador = "0.4"
anyhow = "1"
serde = { version = "1", features = ["derive"] }
