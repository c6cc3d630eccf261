[package]
name = "erc6909_stylus"
version = "0.1.0"
edition = "2021"
publish = false

[dependencies]
stylus-sdk = "=0.10.10"
alloy-sol-types = "=1.7.3"
alloy-primitives = "=1.7.3"
