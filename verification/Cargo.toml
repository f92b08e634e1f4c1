[package]
name = "bls_sigs_test"
version = "0.1.0"
edition = "2021"
publish = false

[dependencies]
bls_sigs_ref = "*"
pairing-plus = "*"
sha2 = "0.8"
