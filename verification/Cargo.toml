[package]
name = "soa"
version = "0.1.0"
edition = "2021"
publish = false

[dependencies]
permutation = "*"
syn = "*"
quote = "*"
proc-macro2 = "*"
