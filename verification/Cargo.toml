[package]
name = "openssl"
version = "0.10.15"
edition = "2021"
publish = false

[dependencies]
libc = "0.2"
foreign-types = "0.3"
