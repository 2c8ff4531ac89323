[package]
name = "ibc_core"
version = "0.1.0"
edition = "2021"
publish = false

[dependencies]
ibc-proto = "=0.52.0"
prost = "=0.13.5"
typed-builder = "=0.23.2"
