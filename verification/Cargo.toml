[package]
name = "clickrs"
version = "0.1.0"
edition = "2021"
publish = false

[dependencies]
anyhow = "*"
clap = { version = "4", features = ["cargo"] }
evdev = "*"
flexi_logger = "*"
log = "*"
