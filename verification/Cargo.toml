[package]
name = "bengine"
version = "0.1.0"
edition = "2021"
publish = false

[dependencies]
ash = "=0.38.0"
itertools = "=0.15.0"
num-traits = "=0.2.19"
obj-rs = "*"
ultraviolet = "=0.10.0"
