[package]
name = "vkc"
version = "0.1.0"
edition = "2021"
publish = false

[dependencies]
smallvec = "*"
vks = "*"
libc = "*"
libloading = "*"
winit = "0.19"
cgmath = "*"
ordered-float = "*"
image = { version = "*", default-features = false, features = ["jpeg"] }
