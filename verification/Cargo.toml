[package]
name = "basic_bridge"
version = "0.1.0"
edition = "2021"
publish = false

[dependencies]
cpu6502 = "*"
clap = { version = "*", features = ["derive"] }
