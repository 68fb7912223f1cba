[package]
name = "mcpwm"
version = "0.1.0"
edition = "2021"
publish = false

[dependencies]
fugit = "0.3"
