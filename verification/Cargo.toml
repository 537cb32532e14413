[package]
name = "zk_circuits"
version = "0.1.0"
edition = "2021"
publish = false

[dependencies]
halo2_proofs = "=0.3.5"
pasta_curves = "0.5"
ff = "0.13"
rand = "=0.8.8"
libc = "0.2"
napi = "3"
napi-derive = "3"
