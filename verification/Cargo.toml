[package]
name = "lean_multisig_py"
version = "0.1.0"
edition = "2021"
publish = false

[dependencies]
ethereum_ssz = "0.10"
pyo3 = "0.25"
