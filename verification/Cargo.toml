[package]
name = "feature_probe"
version = "0.1.1"
edition = "2021"
publish = false

[dependencies]
lazy_static = "1"
