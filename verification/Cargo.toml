[package]
name = "whatlang_ffi"
version = "0.1.0"
edition = "2021"
publish = false

[dependencies]
whatlang = "*"
