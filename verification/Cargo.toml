[package]
name = "bubble_rustle"
version = "0.1.0"
edition = "2021"
publish = false

[dependencies]
bevy = { version = "0.9", default-features = false, features = ["render", "bevy_asset", "bevy_winit", "png", "x11"] }
