[package]
name = "inquire"
version = "0.1.0"
edition = "2021"
publish = false

[dependencies]
goblin = "*"
infer = "*"
unix_mode = "*"
libc = "*"
unixstring = "*"
fs-err = "*"
tabular = "*"
memmap = "*"
