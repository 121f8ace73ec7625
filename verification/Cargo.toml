[package]
name = "wayland_clipboard"
version = "0.1.0"
edition = "2021"
publish = false

[dependencies]
smithay-clipboard = "=0.1.1"
wayland-client = { version = "=0.22.2", features = ["dlopen"] }
