[package]
name = "voiceforge"
version = "0.1.0"
edition = "2021"
publish = false

[dependencies]
crossbeam-channel = "0.5"
cpal = "0.15"
hound = "3"
symphonia = { version = "0.5", features = ["mp3"] }
rustfft = "6"
ratatui = "0.29"
log = "0.4"
fern = "*"
signal-hook = "0.3"
