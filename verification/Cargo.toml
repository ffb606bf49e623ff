[package]
name = "joycons"
version = "0.1.0"
edition = "2021"
publish = false

[dependencies]
anyhow = "=1.0.104"
bevy_app = "=0.9.1"
bevy_ecs = "=0.9.1"
bevy_input = "=0.9.1"
bevy_utils = "=0.9.1"
pinboard = "=2.2.0"
