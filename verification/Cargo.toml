[package]
name = "xdmac"
version = "0.1.0"
edition = "2021"
publish = false

[dependencies]
atsamv71q21b = "*"
