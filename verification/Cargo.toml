[package]
name = "ttoken"
version = "0.1.0"
edition = "2021"
publish = false

[dependencies]
bls12_381-bls = "=0.6.0"
dusk-bls12_381 = "=0.14.2"
dusk-bytes = "=0.1.7"
derive-hex = "=0.1.2"
rkyv = { version = "=0.7.46", features = ["validation"] }
bytecheck = "=0.6.12"

[dev-dependencies]
rand = "=0.8.8"
