[package]
name = "weapon_scripts"
version = "0.1.0"
edition = "2021"
publish = false

[dependencies]
anyhow = "1"
bevy = { version = "0.14", default-features = false }
rune = "0.13"
rune-modules = "0.13"
