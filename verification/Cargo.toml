[package]
name = "zutils"
version = "0.1.0"
edition = "2021"
publish = false

[dependencies]
anyhow = "*"
home = "*"
rand = "*"
rand_chacha = "*"
regex = "*"
serde_yaml = "*"
sysinfo = "*"
