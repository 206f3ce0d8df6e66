[package]
name = "kintsugi"
version = "0.1.0"
edition = "2021"
publish = false

[dependencies]
anyhow = "=1.0.104"
hound = "=3.5.1"
symphonia = { version = "=0.5.5", features = ["mp3"] }
tch = "=0.26.0"
