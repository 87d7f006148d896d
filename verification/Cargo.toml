[package]
name = "idle_notifier"
version = "0.1.0"
edition = "2021"
publish = false

[dependencies]
anyhow = "*"
napi = { version = "*", features = ["napi4"] }
napi-derive = "*"
wayland-client = "*"
wayland-protocols = { version = "*", features = ["client", "staging"] }
