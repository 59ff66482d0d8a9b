[package]
name = "polodb_python"
version = "0.2.0"
edition = "2021"
publish = false

[dependencies]
bson = "=2.15.0"
polodb_core = "=5.3.0"
pyo3 = { version = "=0.29.3", features = ["abi3-py310"] }
