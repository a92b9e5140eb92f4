[package]
name = "framechain"
version = "0.1.0"
edition = "2021"
publish = false

[dependencies]
anyhow = "=1.0.104"
ash = "=0.37.3"
vulkano = "=0.33.1"
vulkano-win = "=0.33.0"
winit = "=0.28.7"
