[package]
name = "voicelink"
version = "0.1.0"
edition = "2021"
publish = false

[dependencies]
bevy = { version = "=0.8.1", default-features = false }
bevy_oddio = "=0.2.0"
