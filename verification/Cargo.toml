[package]
name = "gafi_pallets"
version = "0.1.0"
edition = "2021"
publish = false

[dependencies]
rustc-hex = { version = "=2.1.0", default-features = false }
parity-scale-codec = { version = "=3.7.5", default-features = false }
log = "0.4"
