[package]
name = "nes_emulator"
version = "0.1.0"
edition = "2021"
publish = false

[dependencies]
getopts = "0.2"
image = { version = "0.24", default-features = false }
glium = "0.34"
glutin = "0.31"
winit = "0.29"
crossterm = "0.27"
