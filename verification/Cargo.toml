[package]
name = "flappy_core"
version = "0.1.0"
edition = "2021"
publish = false

[dependencies]
rand = "=0.9.5"
bevy = { version = "=0.17.3", default-features = false }
avian2d = "=0.5.0"
bevy_asset_loader = "=0.25.0"
