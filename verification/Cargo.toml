[package]
name = "skippy"
version = "0.1.0"
edition = "2021"
publish = false

[dependencies]
rhai = "1"
slab = "0.4"
url = "2"
