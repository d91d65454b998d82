[package]
name = "scylla_rust_wrapper"
version = "0.1.0"
edition = "2021"
publish = false

[dependencies]
openssl = "=0.10.81"
openssl-sys = "=0.9.117"
scylla = { version = "=1.9.0", features = ["openssl-010"] }
