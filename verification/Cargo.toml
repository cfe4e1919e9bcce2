[package]
name = "engine"
version = "0.1.0"
edition = "2021"
publish = false

[dependencies]
bevy = { version = "0.15", default-features = false, features = ["bevy_asset", "bevy_core_pipeline", "bevy_render", "bevy_sprite", "bevy_state", "bevy_text", "bevy_ui", "bevy_window"] }
bevy_rapier2d = { version = "0.28", default-features = false, features = ["dim2"] }
noise = "0.9"
