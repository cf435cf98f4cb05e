[package]
name = "nest256p1"
version = "0.1.0"
edition = "2021"
publish = false

[dependencies]
p256 = { version = "0.13", default-features = false, features = ["ecdsa", "std"] }
zeroize = { version = "1", default-features = false, features = ["alloc"] }
