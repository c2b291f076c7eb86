[package]
name = "rangetype"
version = "0.1.0"
edition = "2021"
publish = false

[dependencies]
static_assertions = "1.1"
