[package]
name = "rapidus"
version = "0.1.0"
edition = "2021"
publish = false

[dependencies]
rustc-hash = "*"
clap = "=2.34.0"
rustyline = "=9.1.2"
