[package]
name = "physics_sandbox"
version = "0.1.0"
edition = "2021"
publish = false

[dependencies]
bevy = { version = "0.16", default-features = false, features = ["std", "async_executor", "bevy_asset", "bevy_core_pipeline", "bevy_log", "bevy_pbr", "bevy_render"] }
bevy_rapier3d = { version = "0.30", default-features = false, features = ["dim3", "debug-render-3d"] }
rand = "0.8"
