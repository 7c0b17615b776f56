[package]
name = "qwerty"
version = "0.1.0"
edition = "2021"
publish = false

[dependencies]
anyhow = "*"
console = "*"
ctrlc = "*"
libc = "*"
termios = "*"
