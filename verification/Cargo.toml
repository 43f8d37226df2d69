[package]
name = "render_core"
version = "0.1.0"
edition = "2021"
publish = false

[dependencies]
rand = "0.8"
bytemuck = "1"
env_logger = "0.11"
glam = "0.29"
winit = "0.29"
