[package]
name = "lending_client"
version = "0.1.0"
edition = "2021"
publish = false

[dependencies]
solana-sdk = "=2.3.1"
spl-associated-token-account-client = "*"
mpl-token-metadata = "=5.1.1"
serde_json = "1"
clap = "=2.34.0"
minreq = { version = "*", features = ["https-rustls"] }
bincode = "1"
base64 = "*"
