[package]
name = "speech_core"
version = "0.1.0"
edition = "2021"
publish = false

[dependencies]
anyhow = "=1.0.104"
cpal = "=0.18.2"
dirs = "=7.0.0"
reqwest = { version = "=0.13.5", default-features = false, features = ["blocking", "json"] }
rubato = "=5.0.1"
serde = { version = "=1.0.229", features = ["derive"] }
serde_json = "=1.0.151"
whisper-rs = "=0.16.0"
