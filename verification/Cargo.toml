[package]
name = "gui_scale"
version = "0.1.0"
edition = "2021"
publish = false

[dependencies]
serde = { version = "1.0.229", features = ["derive"] }
serde_json = "1.0.154"
lazy_static = "1.5.1"
