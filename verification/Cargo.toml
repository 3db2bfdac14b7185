[package]
name = "testdex"
version = "0.1.0"
edition = "2021"
publish = false

[dependencies]
elrond-wasm = "=0.38.0"
elrond-wasm-node = "=0.38.0"
num-bigint = "=0.4.8"
