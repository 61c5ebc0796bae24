[package]
name = "limited_vec"
version = "0.1.0"
edition = "2021"

[dependencies]
serde = "*"
