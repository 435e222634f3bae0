[package]
name = "aurelay_engine"
version = "0.1.0"
edition = "2021"
publish = false

[dependencies]
cpal = "0.15"
lazy_static = "1.4"
once_cell = "1"
uniffi = "*"
