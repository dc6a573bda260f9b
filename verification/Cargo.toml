[package]
name = "interestingtech"
version = "0.1.0"
edition = "2021"
publish = false

[dependencies]
glam = "=0.29.3"
bytemuck = "=1.25.2"
wgpu = "=24.0.5"
sdl3 = { version = "=0.22.0", features = ["raw-window-handle"] }
pollster = "=0.4.0"
