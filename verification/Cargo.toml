[package]
name = "antani_sw"
version = "0.1.0"
edition = "2021"
publish = false

[dependencies]
embassy-sync = "*"
critical-section = { version = "*", features = ["std"] }
