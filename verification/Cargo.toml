[package]
name = "hexosynth"
version = "0.1.0"
edition = "2021"
publish = false

[dependencies]
hexodsp = "=0.2.2"
wlambda = { version = "=0.8.1", default-features = false }
