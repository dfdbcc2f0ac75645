[package]
name = "greenmail"
version = "0.1.0"
edition = "2021"
publish = false

[dependencies]
testcontainers = { version = "*", default-features = false }
