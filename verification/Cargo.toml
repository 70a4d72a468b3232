[package]
name = "term3drender"
version = "0.1.0"
edition = "2021"
publish = false

[dependencies]
obj-rs = "*"
ansi_term = "=0.12.1"
