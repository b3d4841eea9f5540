[package]
name = "derive_pinned"
version = "0.1.0"
edition = "2021"
publish = false

[dependencies]
proc-macro2 = "0.3"
quote = "0.5"
syn = "0.13"
