[package]
name = "fs4"
version = "1.0.1"
edition = "2021"
publish = false

[dependencies]
rustix = { version = "=1.1.6", features = ["fs"] }

[dev-dependencies]
tempfile = "3"
