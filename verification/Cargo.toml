[package]
name = "http_guest"
version = "0.1.0"
edition = "2021"
publish = false

[dependencies]
coarsetime = "0.1"
failure = "0.1"
http = "0.1"
rand_core = "0.4"
