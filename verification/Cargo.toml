[package]
name = "dao_scripts"
version = "0.1.0"
edition = "2021"
publish = false

[dependencies]
blake2b-ref = "0.3"
ckb-std = "*"
