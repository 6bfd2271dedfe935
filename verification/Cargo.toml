[package]
name = "whitebeam"
version = "0.1.0"
edition = "2021"
publish = false

[dependencies]
rusqlite = "*"
argon2 = "*"
glob = "*"
libc = "*"
