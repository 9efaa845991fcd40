[package]
name = "farm_engine"
version = "0.1.0"
edition = "2021"
publish = false

[dependencies]
chrono = "*"
ndarray = "*"
thiserror = "*"

[dev-dependencies]
