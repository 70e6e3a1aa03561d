[package]
name = "frost-substrate"
version = "0.1.0"
edition = "2021"
publish = false

[dependencies]
async-trait = "0.1"
finality-grandpa = { version = "0.16", features = ["derive-codec"] }
frame-support = "40"
frame-system = "40.1"
futures = "0.3"
hex = "0.4"
log = "0.4"
metrics = "0.21"
once_cell = "1"
parity-scale-codec = { version = "3", features = ["derive"] }
parking_lot = "0.12"
rs_merkle = "1"
scale-info = { version = "2", features = ["derive"] }
serde = { version = "1", features = ["derive"] }
serde_json = "1"
sha2 = "0.10"
sp-api = "36"
sp-blockchain = "39"
sp-consensus-grandpa = "23"
sp-core = "36"
sp-runtime = "41"
sp-std = "14"
thiserror = "1"
tokio = { version = "1", features = ["sync", "time", "rt"] }
uuid = { version = "1", features = ["v4"] }
