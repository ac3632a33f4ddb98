[package]
name = "termraster"
version = "0.1.0"
edition = "2021"
publish = false

[dependencies]
glam = "*"
libc = "*"

[dependencies.image]
version = "*"
default-features = false
features = ["png"]
