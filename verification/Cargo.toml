[package]
name = "rlox"
version = "0.1.0"
edition = "2021"
publish = false

[dependencies]
peekmore = "=1.3.0"
termion = "*"
