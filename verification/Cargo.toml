[package]
name = "warp-runner"
version = "0.1.0"
edition = "2021"
publish = false

[dependencies]
dirs = "*"
flate2 = "*"
log = "*"
simple_logger = "*"
tar = "*"
