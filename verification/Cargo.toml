[package]
name = "rav1e"
version = "0.1.0"
edition = "2021"
publish = false

[dependencies]
arrayvec = "0.7"
y4m = "0.8"
