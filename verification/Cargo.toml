[package]
name = "tile_adventure"
version = "0.1.0"
edition = "2021"
publish = false

[dependencies]
bevy = { version = "0.11", default-features = false }
bevy_asset_loader = "0.17"
