[package]
name = "aw_watcher_wayland"
version = "0.1.0"
edition = "2021"
publish = false

[dependencies]
anyhow = "*"
appdirs = "*"
aw-client-rust = "*"
chrono = "*"
file-lock = "*"
gethostname = "*"
getopts = "*"
nix = { version = "*", features = ["poll"] }
serde_json = "*"
wayland-backend = "*"
wayland-client = "*"
wayland-protocols-plasma = { version = "*", features = ["client"] }
wayland-protocols-wlr = { version = "*", features = ["client"] }
