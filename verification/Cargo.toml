[package]
name = "descend"
version = "0.1.0"
edition = "2021"
publish = false

[dependencies]
clap = { version = "4", features = ["derive"] }
melior = "*"
miette = { version = "7", features = ["fancy"] }
thiserror = "1"
