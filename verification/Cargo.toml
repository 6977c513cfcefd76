[package]
name = "rustimer"
version = "0.1.0"
edition = "2021"
publish = false

[dependencies]
iced = "=0.3.0"
iced_native = "=0.4.0"
iced_futures = "=0.3.0"
async-std = { version = "=1.13.2", features = ["unstable"] }
