[package]
name = "neli"
version = "0.5.0"
edition = "2021"
publish = false

[dependencies]
byteorder = "1"
bytes = "0.4"
libc = "0.2"
