[package]
name = "voice_pipeline"
version = "0.1.0"
edition = "2021"
publish = false

[dependencies]
anyhow = "=1.0.104"
console = "=0.16.6"
cpal = "=0.18.2"
hound = "=3.5.1"
opus = "=0.3.1"
rand = "=0.10.3"
