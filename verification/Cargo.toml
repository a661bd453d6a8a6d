[package]
name = "wgpu_misc"
version = "0.1.0"
edition = "2021"
publish = false

[dependencies]
wgpu = "=25.0.2"
pollster = "=1.0.1"
