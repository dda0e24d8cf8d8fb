[package]
name = "test_optimization_sdk"
version = "0.1.0"
edition = "2021"
publish = false

[dependencies]
rustc_version_runtime = "*"
