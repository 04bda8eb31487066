[package]
name = "playspace"
version = "0.1.0"
edition = "2021"
publish = false

[dependencies]
bevy = { version = "0.7", default-features = false, features = ["render", "bevy_winit", "png", "x11"] }
bevy_rapier2d = { version = "0.14", default-features = false, features = ["dim2"] }
rand = "0.8"
