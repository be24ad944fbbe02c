[package]
name = "simple_rust_server"
version = "0.1.0"
edition = "2021"
publish = false

[dependencies]
crossbeam-channel = "=0.5.17"
jod-thread = "*"
