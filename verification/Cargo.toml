[package]
name = "tuimodplayer"
version = "0.1.0"
edition = "2021"
publish = false

[dependencies]
rand = "*"
anyhow = "*"
atomic = "*"
clap = { version = "*", features = ["derive"] }
crossterm = "*"
log = "*"
ratatui = "*"
seqlock = "*"
walkdir = "*"
zip = { version = "*", default-features = false, features = ["deflate"] }
cpal = "*"
rodio = { version = "*", default-features = false }
openmpt = "*"
