[package]
name = "draygon_goop"
version = "0.1.0"
edition = "2021"
publish = false

[dependencies]
image = "*"
rayon = "*"
smrng = "*"
