[package]
name = "dln_node"
version = "0.1.0"
edition = "2021"
publish = false

[dependencies]
bip321 = "*"
hex = "0.4"
ldk-node = "*"
nostr-sdk = "*"
nwc = "*"
serde_json = "1"
tokio = { version = "1", features = ["rt-multi-thread", "macros"] }
tracing = "0.1"
