[package]
name = "eth_call_ledger"
version = "0.1.0"
edition = "2021"
publish = false

[dependencies]
alloy-primitives = { version = "=1.7.3", default-features = false, features = ["std"] }
alloy-consensus = { version = "=2.5.0", default-features = false, features = ["std"] }
alloy-eips = { version = "=2.5.0", default-features = false, features = ["std"] }
alloy-evm = { version = "=0.39.0", default-features = false, features = ["std", "overrides", "call-util"] }
alloy-rpc-types-eth = { version = "=2.5.0", default-features = false, features = ["std", "serde"] }
revm = { version = "=43.0.3", default-features = false, features = ["std", "memory_limit", "optional_block_gas_limit", "optional_eip3607", "optional_fee_charge", "optional_no_base_fee"] }
revm-inspectors = { version = "=0.44.3", default-features = false }
futures = "=0.3.34"
serde = { version = "=1.0.229", features = ["derive"] }
tracing = "=0.1.44"
