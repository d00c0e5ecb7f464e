[package]
name = "wae"
version = "0.1.0"
edition = "2021"

[dependencies]
winit = "0.30"
