[package]
name = "lf2_parse"
version = "0.1.0"
edition = "2021"
publish = false

[dependencies]
lf2_codec = "*"

[dev-dependencies]
