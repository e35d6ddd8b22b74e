[package]
name = "coreria"
version = "0.1.0"
edition = "2021"
publish = false

[dependencies]
instant = "0.1"
winit = "0.27"
glutin = "0.29"
gl = "0.14"
