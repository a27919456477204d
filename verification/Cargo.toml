[package]
name = "sierra_backend"
version = "0.1.0"
edition = "2021"
publish = false

[dependencies]
cairo-lang-casm = "=2.21.0"
cairo-lang-sierra = "=2.21.0"
num-bigint = "=0.4.8"
num-traits = "=0.2.19"
smol_str = "=0.3.7"
