[package]
name = "yoga"
version = "0.1.0"
edition = "2021"
publish = false

[dependencies]
x11rb = "*"
log = "*"
env_logger = "*"
transitive_from = "*"
