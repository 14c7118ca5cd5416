[package]
name = "rc2d2"
version = "0.1.0"
edition = "2021"
publish = false

[dependencies]
pleco = "0.5"
cpython = "*"
