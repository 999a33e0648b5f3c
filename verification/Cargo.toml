[package]
name = "safe_core_ffi"
version = "0.1.0"
edition = "2021"
publish = false

[dependencies]
ffi_utils = "*"
rust_sodium = "*"
