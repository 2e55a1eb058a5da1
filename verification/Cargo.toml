[package]
name = "speech-dispatcher"
version = "0.7.0"
edition = "2021"
publish = false

[dependencies]
lazy_static = "1"
speech-dispatcher-sys = "*"
