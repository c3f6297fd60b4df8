[package]
name = "cube_infinifold"
version = "0.1.0"
edition = "2021"
publish = false

[dependencies]
json = "*"
libloading = "*"
