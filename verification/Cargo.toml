[package]
name = "drink"
version = "0.1.0"
edition = "2021"
publish = false

[dependencies]
pallet-contracts-primitives = "26.0.0"
parity-scale-codec = "3.6"
wat = "1"
