[package]
name = "winloop"
version = "0.1.0"
edition = "2021"
publish = false

[dependencies]
rustix = { version = "*", features = ["thread", "process"] }
dpi = "*"
wayland-client = "*"
calloop = "*"
