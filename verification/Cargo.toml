[package]
name = "vantara"
version = "0.1.0"
edition = "2021"
publish = false

[dependencies]
image = { version = "*", default-features = false, features = ["jpeg", "png"] }
drm = "*"
evdev = "*"
nix = { version = "*", features = ["fs"] }
