[package]
name = "cylonn"
version = "0.1.0"
edition = "2021"
publish = false

[dependencies]
rustc-serialize = "0.3"
uuid = { version = "1", features = ["v4"] }
