[package]
name = "chip8"
version = "0.1.0"
edition = "2021"
publish = false

[dependencies]
rfd = { version = "=0.17.2", default-features = false, features = ["xdg-portal"] }
sdl2 = "=0.38.0"
