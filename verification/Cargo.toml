[package]
name = "verihash"
version = "0.1.0"
edition = "2021"
publish = false

[dependencies]
digest = "0.8"
sha2 = "0.8"
