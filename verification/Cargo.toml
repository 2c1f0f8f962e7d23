[package]
name = "mockiato"
version = "0.1.0"
edition = "2021"
publish = false

[dependencies]
nearly_eq = "=0.2.4"
