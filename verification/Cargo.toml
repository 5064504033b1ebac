[package]
name = "xvm"
version = "0.1.0"
edition = "2021"
publish = false

[dependencies]
parity-scale-codec = "3"
serde_json = "1"
