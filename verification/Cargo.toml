[package]
name = "measures"
version = "0.1.0"
edition = "2021"
publish = false

[dependencies]
typenum = "1"
