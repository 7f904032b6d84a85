[package]
name = "tket_json_rs"
version = "0.1.0"
edition = "2021"
publish = false

[dependencies]
uuid = "1"
serde = "1"
pyo3 = "0.23"
pythonize = "0.23"

[dev-dependencies]
serde_json = "1"
