[package]
name = "task_runtime"
version = "0.1.0"
edition = "2021"
publish = false

[dependencies]
futures = "0.1"
futures-core = "0.3"
lazy_static = "1"
