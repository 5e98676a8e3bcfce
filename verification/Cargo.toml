[package]
name = "dlpark"
version = "0.1.0"
edition = "2021"

[dependencies]
pyo3 = "*"
