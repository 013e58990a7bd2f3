[package]
name = "ash_shader_creator"
version = "0.1.0"
edition = "2021"
publish = false

[dependencies]
ash = { version = "0.37", default-features = false }
