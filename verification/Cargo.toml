[package]
name = "fsio"
version = "0.1.0"
edition = "2021"
publish = false

[dependencies]
tempfile = "=3.27.0"
getrandom = "=0.4.3"
