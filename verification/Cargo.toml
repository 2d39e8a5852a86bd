[package]
name = "network"
version = "0.1.0"
edition = "2021"
publish = false

[dependencies]
libp2p = { version = "0.52.4", default-features = false, features = ["tcp", "dns", "websocket", "noise", "yamux", "gossipsub", "secp256k1", "tokio", "macros"] }
libp2p-mplex = "0.40"
sha2 = "0.10"
dirs = "4"
tokio = { version = "1", features = ["macros", "rt-multi-thread", "io-std", "io-util"] }
futures = "0.3"
log = "0.4"
serde = "1"
serde_derive = "1"
