[package]
name = "camera"
version = "0.1.0"
edition = "2021"
publish = false

[dependencies]
cgmath = "0.18"
rand = "0.8"
rand_core = "0.6"
rand_xorshift = "0.3"
