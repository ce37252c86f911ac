[package]
name = "photobooth"
version = "0.1.0"
edition = "2021"
publish = false

[dependencies]
iron = "*"
mount = "*"
persistent = "*"
router = "*"
staticfile = "*"
urlencoded = "*"
rustc-serialize = "*"
