[package]
name = "sc_light"
version = "0.1.0"
edition = "2021"
publish = false

[dependencies]
hash-db = "=0.15.2"
parity-scale-codec = "=2.3.1"
sc-client-api = "=3.0.0"
sc-executor = "=0.9.0"
sp-api = "=3.0.0"
sp-blockchain = "=3.0.0"
sp-core = "=3.0.0"
sp-externalities = "=0.9.0"
sp-runtime = "=3.0.0"
sp-state-machine = "=0.9.0"
sp-trie = "=3.0.0"
# Named by no file: sp-core 3.0.0 builds only against schnorrkel 0.9, which the later 0.4
# releases of substrate-bip39 no longer use.
substrate-bip39 = "=0.4.4"
