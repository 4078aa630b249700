[package]
name = "sigill"
version = "0.1.0"
edition = "2021"
publish = false

[dependencies]
ash = "0.38"
ash-window = "0.13"
winit = "0.30"
vk-mem = "0.4"
hecs = "0.10"
