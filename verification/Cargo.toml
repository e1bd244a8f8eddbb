[package]
name = "formant_tts"
version = "0.1.0"
edition = "2021"
publish = false

[dependencies]
actix-web = "4"
env_logger = "*"
hound = "3"
once_cell = "1"
serde = { version = "1", features = ["derive"] }
serde_json = "1"
tokio = { version = "1", features = ["sync"] }
