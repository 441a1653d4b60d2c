[package]
name = "lemo_gui"
version = "0.1.0"
edition = "2021"
publish = false

[dependencies]
ab_glyph = "*"
bytemuck = "1"
glow = "*"
image = { version = "*", default-features = false, features = ["png"] }
log = "0.4"
sdl2 = "*"
winit = "0.30"
