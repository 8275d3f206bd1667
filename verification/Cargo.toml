[package]
name = "tracy_full"
version = "0.1.0"
edition = "2021"
publish = false

[dependencies]
tracy-client-sys = { version = "=0.30.0", features = ["fibers", "manual-lifetime"] }
ctor = "=1.0.13"
tracing = "=0.1.44"
tracing-subscriber = "=0.3.23"
