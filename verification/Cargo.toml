[package]
name = "game_growth"
version = "0.1.0"
edition = "2021"
publish = false

[dependencies]
rand = "0.8"
noise = "0.8"
bevy = { version = "0.9", default-features = false, features = ["bevy_asset", "bevy_winit", "render", "png", "x11"] }
bevy_asset_loader = { version = "0.14", default-features = false }
bevy_pancam = { version = "0.7", default-features = false }
image = { version = "0.24", default-features = false }
winit = { version = "0.27", default-features = false }
