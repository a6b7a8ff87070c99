[package]
name = "game_controllers"
version = "0.1.0"
edition = "2021"
publish = false

[dependencies]
bevy = { version = "0.9", default-features = false, features = ["bevy_asset", "bevy_core_pipeline", "bevy_render"] }
bevy_rapier3d = { version = "0.19", default-features = false, features = ["dim3"] }
leafwing-input-manager = { version = "0.7", default-features = false }
