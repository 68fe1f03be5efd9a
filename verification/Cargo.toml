[package]
name = "netscan"
version = "0.1.0"
edition = "2021"
publish = false

[dependencies]
pnet = "=0.35.0"
rayon = "=1.12.0"
socket2 = { version = "=0.6.5", features = ["all"] }
tokio = { version = "=1.53.2", features = ["rt", "rt-multi-thread", "sync", "macros", "time"] }
default-net = "=0.22.0"
