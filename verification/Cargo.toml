[package]
name = "mutex_group"
version = "0.1.0"
edition = "2021"

[dependencies]
spin = "*"
