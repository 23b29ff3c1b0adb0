[package]
name = "kayak_ui"
version = "0.1.0"
edition = "2021"
publish = false

[dependencies]
bevy = { version = "=0.12.1", default-features = false }
bytemuck = "1"
derivative = "2"
