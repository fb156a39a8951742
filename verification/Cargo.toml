[package]
name = "remu"
version = "0.1.0"
edition = "2021"
publish = false

[dependencies]
half = "2"
lazy_static = "1"
