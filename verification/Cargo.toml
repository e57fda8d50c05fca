[package]
name = "bridge_target"
version = "0.1.0"
edition = "2021"
publish = false

[dependencies]
async-trait = "=0.1.92"
bp-messages = "=0.29.0"
futures = "=0.3.34"
parity-scale-codec = "=3.7.5"
sp-arithmetic = "=29.0.0"
sp-core = "=43.0.0"
sp-runtime = "=49.0.0"
sp-state-machine = "=0.54.0"
sp-weights = "=37.0.0"
