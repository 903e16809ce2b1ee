[package]
name = "lz_string"
version = "0.1.0"
edition = "2021"
publish = false

[dependencies]
lz-str = "*"
wasm-bindgen = "*"
alloc_cat = "*"
