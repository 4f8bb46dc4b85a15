[package]
name = "fudge_core"
version = "0.1.0"
edition = "2021"
publish = false

[dependencies]
sp-core = "=43.0.0"
sp-inherents = "=44.0.0"
sp-timestamp = "=44.0.0"
sp-runtime = "=49.0.0"
sp-consensus-babe = "*"
sp-consensus-aura = "*"
sp-consensus-slots = "*"
polkadot-parachain-primitives = "*"
parity-scale-codec = "=3.7.5"
lazy_static = "=1.5.1"
async-trait = "=0.1.92"
