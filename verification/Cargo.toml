[package]
name = "named_pipe"
version = "0.1.0"
edition = "2021"
publish = false

[dependencies]
interprocess = "2"
