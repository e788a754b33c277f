[package]
name = "effect_engine"
version = "0.1.0"
edition = "2021"
publish = false

[dependencies]
wgpu = "0.20"
image = "0.24"
pollster = "0.3"
