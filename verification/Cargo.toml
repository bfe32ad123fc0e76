[package]
name = "tokval"
version = "0.1.0"
edition = "2021"
publish = false

[dependencies]
clap = { version = "*", features = ["derive"] }
comfy-table = { version = "*", default-features = false }
num-format = "*"
