[package]
name = "voxel_atlas"
version = "0.1.0"
edition = "2021"
publish = false

[dependencies]
regex = "=1.13.1"
rand = "=0.8.8"
bevy = { version = "=0.10.1", default-features = false, features = ["bevy_asset", "bevy_core_pipeline", "bevy_pbr", "bevy_render", "bevy_text", "bevy_ui", "bevy_winit", "png", "x11"] }
bevy_atmosphere = "=0.6.0"
bevy_flycam = "=0.10.1"
bevy_atmosphere_macros = "=0.2.0"
