[package]
name = "fuse_bridge"
version = "0.1.0"
edition = "2021"
publish = false

[dependencies]
random-string = "*"
syn = { version = "=2.0.119", features = ["full"] }
proc-macro2 = "1"
quote = "1"
