[package]
name = "wdf_spinlock"
version = "0.1.0"
edition = "2021"
publish = false

[dependencies]
wdk-sys = "*"
