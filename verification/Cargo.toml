[package]
name = "grandpa_light_client"
version = "0.1.0"
edition = "2021"
publish = false

[dependencies]
futures-task = "0.3"
parity-scale-codec = { version = "=1.3.7", features = ["derive"] }
sp-api = "=2.0.1"
sp-blockchain = "=2.0.1"
sp-consensus = "=0.8.1"
sp-core = "=2.0.1"
sp-externalities = "=0.8.1"
sp-finality-grandpa = "=2.0.1"
sp-runtime = "=2.0.1"
sp-state-machine = "=0.8.1"
sp-storage = "=2.0.1"
sp-version = "=2.0.1"
substrate-bip39 = "=0.4.2"
