[package]
name = "rukari"
version = "0.1.0"
edition = "2021"
publish = false

[dependencies]
twilight-model = "0.14"
twilight-gateway = "0.14"
twilight-http = "0.14"
serde_json = "1"
pyo3 = "0.17"
pyo3-log = "0.7"
pythonize = "0.17"
tokio = { version = "1", features = ["sync", "rt", "macros"] }
futures-util = "0.3"
log = "0.4"
