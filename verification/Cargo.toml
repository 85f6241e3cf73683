[package]
name = "allvall"
version = "0.1.0"
edition = "2021"
publish = false

[dependencies]
bio = "*"
clap = { version = "*", features = ["derive"] }
crossbeam = "*"
