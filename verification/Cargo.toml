[package]
name = "pydantic_core"
version = "0.1.0"
edition = "2021"
publish = false

[dependencies]
pyo3 = "0.26"
jiter = { version = "0.11", features = ["python"] }
