[package]
name = "cxx_async"
version = "0.1.0"
edition = "2021"
publish = false

[dependencies]
futures = { version = "0.3", features = ["thread-pool"] }
cxx = "1"
once_cell = "1"
async-recursion = "1"
