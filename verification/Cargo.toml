[package]
name = "ironfish"
version = "0.1.0"
edition = "2021"
publish = false

[dependencies]
bellman = "=0.14.0"
blake3 = "=1.8.7"
bls12_381 = "=0.8.0"
byteorder = "=1.5.0"
crypto_api_chachapoly = "=0.5.0"
ff = "=0.13.1"
group = "=0.13.0"
hex = "=0.4.3"
jubjub = "=0.10.0"
num-bigint = "=0.4.8"
num_cpus = "=1.17.0"
pairing = "=0.23.0"
rand = "=0.8.8"
