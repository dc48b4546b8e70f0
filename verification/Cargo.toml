[package]
name = "asset_gate"
version = "0.1.0"
edition = "2021"
publish = false

[dependencies]
bevy = "=0.5.0"
