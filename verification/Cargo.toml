[package]
name = "staged_builder"
version = "0.1.0"
edition = "2021"
publish = false

[dependencies]
heck = "=0.5.0"
proc-macro2 = "=1.0.107"
quote = "=1.0.47"
structmeta = "=0.3.0"
syn = { version = "=2.0.119", features = ["full"] }
