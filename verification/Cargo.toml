[package]
name = "imp_sample"
version = "0.1.0"
edition = "2021"
publish = false

[dependencies]
libc = "0.2"
log = "0.4"
env_logger = "0.11"
libc_alloc = "1.0"
libc-print = "*"
