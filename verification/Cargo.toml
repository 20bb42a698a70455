[package]
name = "gradgraph"
version = "0.1.0"
edition = "2021"
publish = false

[dependencies]
nanoid = "0.4"
rand = "0.8"
num-traits = "0.2"
