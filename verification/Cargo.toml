[package]
name = "cmus_lyrics"
version = "0.1.0"
edition = "2021"

[dependencies]
md5 = "0.7"
crossterm = "0.28"
