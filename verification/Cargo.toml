[package]
name = "pylibgrit"
version = "0.5.0"
edition = "2021"
publish = false

[dependencies]
grit-lib = "=0.4.1"
pyo3 = { version = "=0.23.5", features = ["abi3-py311"] }
