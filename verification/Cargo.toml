[package]
name = "wasmlib"
version = "0.1.0"
edition = "2021"
publish = false

[dependencies]
blake2b_simd = "*"
blake2 = "*"
