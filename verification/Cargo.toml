[package]
name = "triangle_demo"
version = "0.1.0"
edition = "2021"
publish = false

[dependencies]
glium = "0.23"
imgui = "0.0.22"
imgui-glium-renderer = "0.0.22"
