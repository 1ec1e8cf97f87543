[package]
name = "glk_rs"
version = "0.1.0"
edition = "2021"
publish = false

[dependencies]
chrono = "*"
mktemp = "*"
thiserror = "*"
unicode-normalization = "*"
