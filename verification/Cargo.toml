[package]
name = "triemeta"
version = "0.1.0"
edition = "2021"
publish = false

[dependencies]
alloy-primitives = "1"
fxhash = "0.2"
memmap2 = "0.9"

[dev-dependencies]
rand = "0.9"
