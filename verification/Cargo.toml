[package]
name = "debug_ui"
version = "0.1.0"
edition = "2021"
publish = false

[dependencies]
euclid = "*"
gl = "*"
pathfinder_color = "*"
pathfinder_geometry = "*"
pathfinder_renderer = "*"
serde = { version = "1", features = ["derive"] }
serde_json = "1"
