[package]
name = "noise_fn"
version = "0.1.0"
edition = "2021"
publish = false

[dependencies]
wyhash = "*"
rand = "*"
sized_matrix = "*"
