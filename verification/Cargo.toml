[package]
name = "rust_yap"
version = "0.1.0"
edition = "2021"

[dependencies]
indexmap = "=2.14.2"
