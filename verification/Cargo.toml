[package]
name = "slime_sim"
version = "0.1.0"
edition = "2021"
publish = false

[dependencies]
bevy = { version = "0.9", default-features = false, features = ["bevy_asset", "bevy_core_pipeline", "bevy_render", "bevy_winit", "x11"] }
bytemuck = "1"
ron = "0.8"
serde = { version = "1", features = ["derive"] }
