[package]
name = "gaclen"
version = "0.1.0"
edition = "2021"
publish = false

[dependencies]
vulkano = "0.21"
vulkano-win = "0.21"
winit = "0.24"
