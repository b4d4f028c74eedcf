[package]
name = "rust_gpiozero"
version = "0.1.0"
edition = "2021"
publish = false

[dependencies]
palette = "*"
rppal = "*"
