[package]
name = "math_dictation"
version = "0.1.0"
edition = "2021"
publish = false

[dependencies]
anyhow = "*"
chrono = "*"
cpal = "*"
google-generative-ai-rs = "*"
rdev = "*"
tokio = { version = "*", features = ["macros", "rt-multi-thread", "signal", "time"] }
tracing-subscriber = "*"
whisper-rs = "*"
