[package]
name = "chip8"
version = "0.1.0"
edition = "2021"
publish = false

[dependencies]
glium = "=0.35.0"
image = "=0.25.10"
imgui = "=0.12.0"
imgui-glium-renderer = "=0.13.0"
imgui-winit-support = "=0.13.0"
lazy_static = "*"
piston = "=1.0.0"
piston2d-graphics = "=0.45.0"
piston2d-opengl_graphics = "=0.89.0"
pistoncore-glutin_window = "*"
