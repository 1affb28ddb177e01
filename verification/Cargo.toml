[package]
name = "slickscreen"
version = "0.1.0"
edition = "2021"
publish = false

[dependencies]
anyhow = "1"
clap = { version = "3", features = ["derive"] }
cpal = "0.13"
crossbeam = "0.8"
ctrlc = "3"
ffmpeg-next = "5"
scrap = "0.5"
thiserror = "1"
