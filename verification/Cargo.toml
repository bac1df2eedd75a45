[package]
name = "noisy_shapes"
version = "0.1.0"
edition = "2021"
publish = false

[dependencies]
hexasphere = "=19.0.0"
bevy = { version = "=0.19.1", default-features = false, features = ["bevy_mesh", "bevy_color", "bevy_asset"] }
