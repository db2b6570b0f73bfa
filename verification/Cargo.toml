[package]
name = "ledger_store"
version = "0.1.0"
edition = "2021"
publish = false

[dependencies]
anyhow = "*"
clap = "*"
crossbeam-channel = "*"
dirs-next = "*"
log = "*"
lru = "=0.18.5"
nix = { version = "*", features = ["socket"] }
num_cpus = "=1.17.0"
rand = "=0.10.3"
rocksdb = "*"
serde = { version = "*", features = ["derive"] }
serde_yaml_ng = "*"
socket2 = "*"
solana-clock = "*"
solana-cluster-type = "*"
solana-epoch-schedule = "*"
solana-genesis-config = "*"
solana-hash = "=4.7.0"
solana-keypair = "*"
solana-logger = "*"
solana-poh-config = "*"
solana-pubkey = "*"
solana-sha256-hasher = { version = "=3.1.0", features = ["sha2"] }
solana-signer = "*"
solana-time-utils = "=3.0.0"
thiserror = "*"
url = "*"
