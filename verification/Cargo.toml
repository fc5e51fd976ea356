[package]
name = "micc_consensus"
version = "0.1.0"
edition = "2021"
publish = false

[dependencies]
bounded-collections = "=0.3.2"
parity-scale-codec = "=3.7.5"
log = "=0.4.34"
futures = "=0.3.34"
futures-timer = "=3.0.4"
tokio = { version = "=1.54.1", features = ["time", "rt", "macros", "sync"] }
async-trait = "=0.1.92"
thiserror = "=2.0.21"
sp-core = "=43.0.0"
sp-runtime = "=48.0.0"
sp-consensus-slots = "=0.49.0"
sc-transaction-pool-api = "=48.0.0"
