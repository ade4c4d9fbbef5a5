[package]
name = "sandlot"
version = "0.1.0"
edition = "2021"
publish = false

[dependencies]
sdl3-sys = "*"
bitflags = "2"
paste = "1"
