[package]
name = "rustberry"
version = "0.1.0"
edition = "2021"
publish = false

[dependencies]
apollo-compiler = "=1.33.0"
pyo3 = { version = "=0.29.3", features = ["py-clone"] }
