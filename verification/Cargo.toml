[package]
name = "leyline"
version = "0.1.0"
edition = "2021"
publish = false

[dependencies]
wdk-sys = "*"
wdk-alloc = "*"
wdk-panic = "*"
