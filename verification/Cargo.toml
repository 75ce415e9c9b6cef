[package]
name = "cocoa"
version = "0.1.0"
edition = "2021"
publish = false

[dependencies]
objc = "0.2"
libc = "0.2"
core-graphics = "*"
