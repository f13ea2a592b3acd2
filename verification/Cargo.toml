[package]
name = "regmach"
version = "0.1.0"
edition = "2021"
publish = false

[dependencies]
wasmi_core = "0.13"
wasmparser = "0.100"
