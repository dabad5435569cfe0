[package]
name = "gameboy"
version = "0.1.0"
edition = "2021"
publish = false

[dependencies]
bit-vec = "0.6"
sdl2 = "0.29"
