[package]
name = "post_clock"
version = "0.1.0"
edition = "2021"
publish = false

[dependencies]
libc = "0.2"
capctl = "*"
time = { version = "0.3", features = ["local-offset"] }
