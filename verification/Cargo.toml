[package]
name = "swap_tx"
version = "0.1.0"
edition = "2021"
publish = false

[dependencies]
bitcoin = "=0.26.2"
thiserror = "=1.0.69"
