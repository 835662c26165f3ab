[package]
name = "n64_systemtest"
version = "0.1.0"
edition = "2021"
publish = false

[dependencies]
arbitrary-int = "*"
spinning_top = "*"
bitbybit = "*"
