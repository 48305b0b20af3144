[package]
name = "trv1"
version = "0.1.0"
edition = "2021"
publish = false

[dependencies]
solana-sha256-hasher = { version = "=3.1.0", features = ["sha2"] }
solana-hash = { version = "=4.7.0", features = ["serde", "decode"] }
solana-pubkey = { version = "=4.4.0", features = ["serde"] }
serde = { version = "=1.0.229", features = ["derive"] }
serde_json = "=1.0.154"
borsh = { version = "=1.8.1", features = ["derive"] }
bincode = "=1.3.3"
thiserror = "=2.0.21"
log = "=0.4.35"
tokio = { version = "=1.54.1", default-features = false, features = ["rt", "net", "io-util", "sync", "time"] }
crossbeam-channel = "=0.5.17"
