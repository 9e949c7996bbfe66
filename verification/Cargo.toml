[package]
name = "voicepipe"
version = "0.1.0"
edition = "2021"
publish = false

[dependencies]
anyhow = "1"
async-openai = { version = "=0.42.1", features = ["audio"] }
cpal = "=0.18.2"
tokio = { version = "=1.53.2", features = ["rt-multi-thread", "macros", "sync", "time"] }

[dev-dependencies]
hound = "=3.5.1"
