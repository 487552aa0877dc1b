[package]
name = "primary_selection"
version = "0.1.0"
edition = "2021"
publish = false

[dependencies]
cocoa = "*"
core-foundation = "*"
core-graphics = "*"
foreign-types-shared = "*"
libc = "*"
objc = "*"
