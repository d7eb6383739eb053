[package]
name = "fht_animation"
version = "0.1.0"
edition = "2021"
publish = false

[dependencies]
keyframe = "1"
rustix = { version = "*", features = ["time"] }
serde = { version = "1", features = ["derive"] }
