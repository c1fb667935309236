[package]
name = "wg_vankey"
version = "2.0.0"
edition = "2021"
publish = false

[dependencies]
base64 = "0.21"
chrono = "0.4"
clap = "2"
num_cpus = "1"
rand_core = { version = "0.5", features = ["getrandom"] }
regex = "1"
x25519-dalek = "1.2"
