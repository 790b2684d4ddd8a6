[package]
name = "diagnostics"
version = "0.1.0"
edition = "2021"
publish = false

[dependencies]
colored = "*"
once_cell = "*"
peg = "*"
