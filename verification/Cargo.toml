[package]
name = "shell_tex"
version = "0.1.0"
edition = "2021"
publish = false

[dependencies]
glium = "0.33"
winit = "0.28"
glutin-winit = "0.3"
raw-window-handle = "0.5"
