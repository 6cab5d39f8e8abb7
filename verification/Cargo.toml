[package]
name = "stemgen"
version = "0.1.0"
edition = "2021"
publish = false

[dependencies]
anyhow = "*"
bytemuck = "*"
clap = { version = "*", features = ["derive"] }
indicatif = "*"
log = "*"
mp3lame-encoder = "*"
rayon = "*"
simple_logger = "*"
vorbis_rs = "*"
walkdir = "*"
wav = "*"
