[package]
name = "lotp"
version = "0.1.0"
edition = "2021"
publish = false

[dependencies]
base32 = "=0.4.0"
ring = "=0.17.14"
