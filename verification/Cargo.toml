[package]
name = "ethercat_coe"
version = "0.1.0"
edition = "2021"
publish = false

[dependencies]

[dev-dependencies]
ethercat-types = "*"
num-traits = "*"
