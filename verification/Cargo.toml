[package]
name = "wsf"
version = "0.1.0"
edition = "2021"
publish = false

[dependencies]
libafl_qemu = { version = "0.10", default-features = false, features = ["x86_64", "systemmode"] }
