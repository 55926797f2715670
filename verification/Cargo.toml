[package]
name = "editor_bridge"
version = "0.1.0"
edition = "2021"
publish = false

[dependencies]
vst = "*"
raw-window-handle = "0.3"
log = "*"
simplelog = "*"
log-panics = "*"
dirs = "*"
x11 = { version = "*", features = ["xlib"] }
cairo-rs = { version = "*", default-features = false }
cairo-sys-rs = "*"
