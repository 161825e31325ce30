[package]
name = "chip8"
version = "0.1.0"
edition = "2021"
publish = false

[dependencies]
hex = "0.4"
clap = "2"
sdl2 = "0.35"
