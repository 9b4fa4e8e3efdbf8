[package]
name = "toyterm"
version = "0.1.0"
edition = "2021"
publish = false

[dependencies]
nix = "0.26"
x11 = { version = "2", features = ["xlib"] }
