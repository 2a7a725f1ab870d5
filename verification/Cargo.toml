[package]
name = "mumble"
version = "0.1.0"
edition = "2021"
publish = false

[dependencies]
vst = "*"
dlopen = "*"
dlopen_derive = "*"
itertools = "*"
libc = "*"
