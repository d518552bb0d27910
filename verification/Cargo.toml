[package]
name = "audio_output"
version = "0.1.0"
edition = "2021"
publish = false

[dependencies]
rodio = { version = "0.14", default-features = false }
