[package]
name = "tetris"
version = "0.1.0"
edition = "2021"
publish = false

[dependencies]
fltk = "*"
rand = "0.8"
