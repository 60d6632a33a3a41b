[package]
name = "protogen"
version = "0.1.0"
edition = "2021"
publish = false

[dependencies]
anyhow = "1"
prost-build = "0.11"
syn = "1"
