[package]
name = "shared_directory"
version = "0.1.0"
edition = "2021"
publish = false

[dependencies]
rdp-rs = { version = "*", default-features = false }
