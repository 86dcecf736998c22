[package]
name = "flyscene"
version = "0.1.0"
edition = "2021"
publish = false

[dependencies]
wgpu = "=29.0.4"
winit = "=0.30.13"
cgmath = "=0.18.0"
bytemuck = "=1.25.2"
tobj = "=4.0.5"
futures = "=0.3.34"
env_logger = "=0.11.11"
imgui = "=0.12.0"
imgui-wgpu = "=0.28.0"
imgui-winit-support = "=0.13.0"

[dependencies.image]
version = "=0.25.10"
default-features = false
features = ["png", "jpeg"]
