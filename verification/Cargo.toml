[package]
name = "wide_vec2"
version = "0.1.0"
edition = "2021"
publish = false

[dependencies]
wide = "0.7"
