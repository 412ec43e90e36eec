[package]
name = "rotating_file"
version = "0.1.0"
edition = "2021"

[dependencies]
signal-hook = "0.3"
