[package]
name = "bcomp_mc"
version = "0.1.0"
edition = "2021"
publish = false

[dependencies]
parse_int = "*"
wasm-bindgen = "*"

[dev-dependencies]
fancy-regex = "*"
