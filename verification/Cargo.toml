[package]
name = "cloud_noise"
version = "0.1.0"
edition = "2021"
publish = false

[dependencies]
rand = "0.8.5"
rand_chacha = "0.3.1"
