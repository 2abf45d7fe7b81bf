[package]
name = "libp2p-auto-relay"
version = "0.1.0"
edition = "2021"
publish = false

[dependencies]
asynchronous-codec = "0.6"
bytes = "1"
dashmap = "5"
futures-channel = "0.3"
futures-util = { version = "0.3", features = ["io", "sink"] }
libp2p-core = "0.40"
libp2p-swarm = "0.43"
pin-project = "1"
prost = "0.11"
prost-codec = "0.3"
tap = "1"
thiserror = "1"
tracing = "0.1"
