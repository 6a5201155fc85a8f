[package]
name = "project_iot"
version = "0.1.0"
edition = "2021"
publish = false

[dependencies]
chrono = { version = "0.4", default-features = false, features = ["clock"] }
iced = { version = "0.10", default-features = false, features = ["tokio"] }
lazy_static = "1.4"
pyo3 = { version = "0.19", features = ["auto-initialize"] }
tokio = { version = "1", features = ["time"] }
