[package]
name = "yowsl"
version = "0.1.0"
edition = "2021"
publish = false

[dependencies]
clap = { version = "2", default-features = false }
libloading = "0.5"
