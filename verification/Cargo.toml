[package]
name = "kingdom"
version = "0.1.0"
edition = "2021"
publish = false

[dependencies]
bevy = { version = "=0.19.1", default-features = false, features = ["std", "multi_threaded", "async_executor", "bevy_asset", "bevy_log", "bevy_winit", "x11", "bevy_sprite_render", "png"] }
