[package]
name = "lens_sdk"
version = "0.1.0"
edition = "2021"
publish = false

[dependencies]
byteorder = "1"
serde = "1"
serde_json = "1"
