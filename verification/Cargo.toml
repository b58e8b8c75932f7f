[package]
name = "foxdbg"
version = "0.1.0"
edition = "2021"
publish = false

[dependencies]
turbojpeg = "*"
foxglove = "*"
log = "*"
env_logger = "*"
once_cell = "*"
