[package]
name = "rapidhttp"
version = "0.1.0"
edition = "2021"
publish = false

[dependencies]
bytes = "=1.12.1"
once_cell = "=1.21.4"
pyo3 = { version = "=0.20.3", features = ["extension-module", "abi3-py38"] }
reqwest = { version = "=0.11.27", features = ["blocking"] }
serde_urlencoded = "=0.7.1"
