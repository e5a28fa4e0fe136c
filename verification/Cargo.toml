[package]
name = "godot_signal_bridge"
version = "0.1.0"
edition = "2021"
publish = false

[dependencies]
bevy = { version = "=0.16.1", default-features = false }
godot = { version = "0.4", default-features = false }
