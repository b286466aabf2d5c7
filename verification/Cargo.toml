[package]
name = "asynclog"
version = "0.1.0"
edition = "2021"
publish = false

[dependencies]
commitlog = "*"
getopts = "*"
histogram = "*"
rand = "*"
log = "*"
env_logger = "*"
