[package]
name = "bevy_mod_gba"
version = "0.1.0"
edition = "2021"
publish = false

[dependencies]
agb = "0.21"
bevy = { version = "0.16", default-features = false, features = ["std"] }
