[package]
name = "krysalis_native"
version = "0.1.0"
edition = "2021"
publish = false

[dependencies]
ash = "=0.37.3"
ash-window = "=0.12.0"
env_logger = "=0.10.2"
raw-window-handle = "=0.5.2"
winit = { version = "=0.28.7", default-features = false, features = ["x11"] }
