[package]
name = "zbox_boundary"
version = "0.1.0"
edition = "2021"
publish = false

[dependencies]
zbox = "=0.9.2"
neon = "=1.1.2"
rmp = "=0.8.10"
