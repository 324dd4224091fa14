[package]
name = "blast"
version = "0.1.0"
edition = "2021"
publish = false

[dependencies]
heck = "*"
proc-macro2 = "*"
syn = { version = "*", features = ["full"] }
