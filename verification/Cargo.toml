[package]
name = "echobench"
version = "0.1.0"
edition = "2021"
publish = false

[dependencies]
byteorder = "*"
getopts = "*"
log = "*"
env_logger = "*"
