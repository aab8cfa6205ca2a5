[package]
name = "raytracer"
version = "0.1.0"
edition = "2021"
publish = false

[dependencies]
glam = "0.29"
pollster = "0.3"
rand = "0.8"
wgpu = "24"
winit = "0.29"
