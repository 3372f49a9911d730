[package]
name = "scene_timeline"
version = "0.1.0"
edition = "2021"
publish = false

[dependencies]
once_cell = "=1.21.4"
serde_json = "=1.0.151"
