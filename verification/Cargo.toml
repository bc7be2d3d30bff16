[package]
name = "opaque_messages"
version = "0.1.0"
edition = "2021"
publish = false

[dependencies]
voprf = "=0.2.0"
curve25519-dalek = "=3.2.1"
sha2 = "=0.9.9"
digest = "=0.9.0"
generic-array = "=0.14.9"
rand = "=0.8.8"
