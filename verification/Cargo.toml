[package]
name = "window_mux"
version = "0.1.0"
edition = "2021"
publish = false

[dependencies]
wgpu = "0.13"
winit = "0.27"
pollster = "0.3"
env_logger = "0.10"
