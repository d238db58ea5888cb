[package]
name = "pedersenpy"
version = "0.1.0"
edition = "2021"
publish = false

[dependencies]
babyjubjub-rs = "*"
ff_ce = "0.11"
num-bigint = "0.4"
num-traits = "0.2"
pyo3 = { version = "0.23", features = ["num-bigint"] }
