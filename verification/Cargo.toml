[package]
name = "chazi"
version = "0.1.0"
edition = "2021"
publish = false

[dependencies]
wait-timeout = "0.2"
