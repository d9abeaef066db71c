[package]
name = "bevy_rhai"
version = "0.1.0"
edition = "2021"
publish = false

[dependencies]
rhai = { version = "=1.26.1", features = ["sync"] }
anyhow = "=1.0.104"
bevy_app = "=0.8.1"
bevy_asset = "=0.8.1"
bevy_ecs = "=0.8.1"
bevy_reflect = "=0.8.1"
