[package]
name = "netdiag"
version = "0.1.0"
edition = "2021"
publish = false

[dependencies]
anyhow = "*"
etherparse = "*"
futures = "*"
libc = "*"
log = "*"
parking_lot = "*"
rand = "*"
raw-socket = "*"
tokio = { version = "*", features = ["full"] }
