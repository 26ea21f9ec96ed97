[package]
name = "forksim"
version = "0.1.0"
edition = "2021"
publish = false

[dependencies]
alloy = { version = "0.1", default-features = false, features = ["json-rpc", "network", "providers", "rpc-client", "rpc-types", "sol-types", "transport-http"] }
alloy-rpc-client = { version = "0.1", default-features = false, features = ["reqwest"] }
eyre = "=0.6.14"
foundry-fork-db = "=0.1.0"
lazy_static = "=1.5.1"
revm = { version = "10", default-features = false, features = ["std"] }
revmc-builtins = "=0.1.0"
revmc-context = "=0.1.0"

[dev-dependencies]
serde_json = { version = "=1.0.154", features = ["raw_value"] }
tower = "=0.4.13"
