[package]
name = "layerbar"
version = "0.1.0"
edition = "2021"
publish = false

[dependencies]
wayland-client = "0.31"
wayland-protocols-wlr = { version = "0.2", features = ["client"] }
nix = { version = "0.27", features = ["mman", "fs"] }
slint = { version = "=1.5.1", default-features = false, features = ["std", "compat-1-2", "renderer-software"] }
