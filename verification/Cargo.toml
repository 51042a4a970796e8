[package]
name = "gstools_core"
version = "0.1.0"
edition = "2021"
publish = false

[dependencies]
kdtree = "0.7"
nalgebra = "*"
ndarray = "*"
numpy = "*"
pyo3 = "*"
scirs2-special = "*"
serde = { version = "1", features = ["derive"] }
serde_json = "1"
