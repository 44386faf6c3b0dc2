[package]
name = "libp2p-streaming"
version = "0.1.0"
edition = "2021"
publish = false

[dependencies]
futures = "0.3"
libp2p-core = { version = "0.28", default-features = false }
libp2p-swarm = "0.29"
log = "0.4"
pin-project = "1"
thiserror = "1"
