[package]
name = "borsh_max_size"
version = "0.1.0"
edition = "2021"
publish = false

[dependencies]
arrayvec = "*"
proc-macro2 = "*"
quote = "*"
syn = "*"

[dev-dependencies]
arrayvec = "*"
