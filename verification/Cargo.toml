[package]
name = "elysium_core"
version = "0.1.0"
edition = "2021"
publish = false

[dependencies]
log = "0.4"
vulkano = "0.20"
vulkano-shaders = "0.20"
vulkano-win = "0.20"
winit = "0.24"
