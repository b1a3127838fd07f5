[package]
name = "resilient-rs"
version = "0.4.10"
edition = "2021"
publish = false

[dependencies]
async-std = "1"
log = "0.4"
rand = "0.9"
