[package]
name = "terrain_core"
version = "0.1.0"
edition = "2021"
publish = false

[dependencies]
gdnative = "0.9"
