[package]
name = "speedy_spritesheets"
version = "0.1.0"
edition = "2021"
publish = false

[dependencies]
image = { version = "=0.24.9", default-features = false, features = ["png"] }
egui = "=0.26.2"
env_logger = "=0.10.2"
pkg-version = "=1.0.0"
rfd = "0.12"
sdl2 = "0.36"
