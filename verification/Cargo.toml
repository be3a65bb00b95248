[package]
name = "rloop"
version = "0.1.0"
edition = "2021"
publish = false

[dependencies]
anyhow = "=1.0.104"
log = "=0.4.35"
mio = { version = "=1.2.4", features = ["os-poll", "net", "os-ext"] }
papaya = "=0.2.5"
pyo3 = "=0.25.1"
rustls = { version = "=0.23.46", default-features = false, features = ["ring", "std", "tls12", "logging"] }
socket2 = { version = "=0.5.10", features = ["all"] }
