[package]
name = "nova_ge"
version = "0.1.0"
edition = "2021"
publish = false

[dependencies]
rand = "0.9"
ash = "0.38"
ash-window = "0.13"
raw-window-handle = "0.6"
winit = { version = "0.29", default-features = false, features = ["x11", "rwh_06"] }
glfw = { version = "*", default-features = false }
imgui = "0.12"
shaderc = "0.8"
simplelog = "0.12"
log = "0.4"
alerta = "*"
