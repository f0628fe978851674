[package]
name = "td_revent"
version = "0.1.0"
edition = "2021"
publish = false

[dependencies]
rbtree = "*"
time = "0.1"
psocket = "*"
nix = { version = "*", default-features = false, features = ["event"] }
libc = "0.2"
