[package]
name = "universe_cli"
version = "0.1.0"
edition = "2021"
publish = false

[dependencies]
which = "*"
clap = { version = "4", features = ["derive"] }
edit = "*"
