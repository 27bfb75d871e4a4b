[package]
name = "cj_bitmask_vec"
version = "0.1.0"
edition = "2021"
publish = false

[dependencies]
cj_common = "*"
