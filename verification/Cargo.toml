[package]
name = "ordantic_core"
version = "0.1.0"
edition = "2021"
publish = false

[dependencies]
syn = { version = "=1.0.109", features = ["full"] }
quote = "=1.0.47"
serde_json = { version = "=1.0.154", features = ["preserve_order"] }
schemars = "=0.8.22"
pyo3 = "=0.20.3"
