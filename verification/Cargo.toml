[package]
name = "cpsat-rs"
version = "0.1.0"
edition = "2021"
publish = false

[dependencies]
prost = "0.13"
thiserror = "2"
