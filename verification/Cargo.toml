[package]
name = "nesnes"
version = "0.1.0"
edition = "2021"
publish = false

[dependencies]
env_logger = "*"
log = "*"
sdl2 = { version = "*", features = ["ttf"] }
