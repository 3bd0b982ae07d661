[package]
name = "rustysm"
version = "0.1.0"
edition = "2021"
publish = false

[dependencies]
chrono = "0.4"
youtube_dl = "*"
notify = "4"
termion = "1"
tui = { version = "0.19", default-features = false, features = ["termion"] }
clap = "2"
dirs = "*"
log = "0.4"
log4rs = "1"
uuid = { version = "*", features = ["v4"] }
alsa = "*"
mpv = "*"
easy_reader = "*"
