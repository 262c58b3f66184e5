[package]
name = "sound_pipewire"
version = "0.1.0"
edition = "2021"
publish = false

[dependencies]
async-trait = "0.1"
pipewire = "0.8"
serde_json = "1"
tokio = { version = "1", features = ["sync", "time"] }
