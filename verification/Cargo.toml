[package]
name = "wlr-libpy"
version = "0.2.0"
edition = "2021"
publish = false

[dependencies]
fslock = "0.2.1"
