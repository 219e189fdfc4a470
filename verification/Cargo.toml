[package]
name = "tnua_adapter"
version = "0.1.0"
edition = "2021"
publish = false

[dependencies]
bevy = { version = "0.15", default-features = false }
avian2d = { version = "0.2", default-features = false, features = ["2d", "f32", "parry-f32"] }
bevy_rapier2d = { version = ">=0.28, <0.30", default-features = false, features = ["dim2"] }
bevy-tnua-physics-integration-layer = ">=0.5, <0.8"
