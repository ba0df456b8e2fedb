[package]
name = "aettesaga"
version = "0.1.0"
edition = "2021"
publish = false

[dependencies]
bevy = { version = "=0.18.1", default-features = false, features = ["std", "bevy_asset", "bevy_camera", "bevy_color", "bevy_core_pipeline", "bevy_gizmos", "bevy_image", "bevy_light", "bevy_log", "bevy_mesh", "bevy_pbr", "bevy_render", "bevy_shader", "bevy_state", "bevy_window", "free_camera", "png"] }
