[package]
name = "openchat_native"
version = "0.1.0"
edition = "2021"
publish = false

[dependencies]
hex = "=0.4.3"
mdk-core = "=0.8.0"
mdk-memory-storage = "=0.8.0"
nostr = "=0.44.8"
once_cell = "=1.21.4"
parking_lot = "=0.12.5"
rand = "=0.8.8"
serde = { version = "=1.0.229", features = ["derive"] }
serde_json = "=1.0.154"
sha2 = "=0.10.9"
thiserror = "=1.0.69"
