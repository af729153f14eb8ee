[package]
name = "poseidon_bn254"
version = "0.1.0"
edition = "2021"
publish = false

[dependencies]
ark-bn254 = "=0.6.0"
ark-ff = "=0.6.0"
