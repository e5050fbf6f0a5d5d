[package]
name = "pamsm"
version = "0.5.5"
edition = "2021"
publish = false

[dependencies]
libc = "0.2"
