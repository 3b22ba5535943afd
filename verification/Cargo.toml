[package]
name = "ephemeral_oracle"
version = "0.1.0"
edition = "2021"
publish = false

[dependencies]
solana-pubkey = { version = "=4.4.0", features = ["sha2", "curve25519"] }
solana-keypair = "=3.1.2"
solana-signer = "=3.0.1"
solana-transaction = { version = "=3.1.0", features = ["bincode"] }
solana-instruction = "=4.0.0"
solana-hash = "=4.7.0"
bincode = "=1.3.3"
base64 = "=0.23.1"
tokio = { version = "=1.53.2", features = ["macros", "rt-multi-thread", "time", "net"] }
reqwest = { version = "=0.13.5", features = ["json"] }
serde = { version = "*", features = ["derive"] }
serde_json = "*"
clap = { version = "=4.6.7", features = ["derive"] }
dotenvy = "*"
tracing = "*"
url = "*"
bytes = "*"
ratchet_rs = { version = "=1.2.1", features = ["deflate"] }
native-tls = "*"
tokio-native-tls = "*"
