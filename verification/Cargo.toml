[package]
name = "audio_core"
version = "0.1.0"
edition = "2021"
publish = false

[dependencies]
anyhow = "*"
clap = { version = "*", features = ["derive"] }
cpal = "*"
crossbeam-channel = "*"
parking_lot = "*"
rubato = "*"
serde = { version = "*", features = ["derive"] }
serde_json = "*"
symphonia = { version = "*", features = ["mp3", "aac", "isomp4"] }
thiserror = "*"
toml = "*"
tracing = "*"
tracing-subscriber = { version = "*", features = ["env-filter"] }
