[package]
name = "ynwm"
version = "0.1.0"
edition = "2021"
publish = false

[dependencies]
generational-arena = "=0.2.9"
libc = "=0.2.191"
wlroots-sys = { version = "=0.4.0", default-features = false, features = ["unstable"] }
