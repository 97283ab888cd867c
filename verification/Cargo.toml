[package]
name = "pty_discipline"
version = "0.1.0"
edition = "2021"
publish = false

[dependencies]
redox_termios = "*"
