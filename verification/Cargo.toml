[package]
name = "rusthero"
version = "0.1.0"
edition = "2021"
publish = false

[dependencies]
vulkano = "=0.34.2"
vulkano-win = "=0.34.0"
winit = "=0.28.7"
