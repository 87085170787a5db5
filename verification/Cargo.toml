[package]
name = "mouse_position"
version = "0.1.0"
edition = "2021"
publish = false

[dependencies]
smithay-client-toolkit = { version = "=0.21.1", default-features = false }
tempfile = "=3.27.0"
wayland-client = "=0.31.15"
x11-dl = "=2.21.0"
