[package]
name = "minifier_rules"
version = "0.1.0"
edition = "2021"
publish = false

[dependencies]
rustc-hash = "2"
swc_common = "*"
