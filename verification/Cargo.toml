[package]
name = "bolt_rs"
version = "0.1.0"
edition = "2021"
publish = false

[dependencies]
paste = "1"
thiserror = "2"
