[package]
name = "pools"
version = "0.1.0"
edition = "2021"
publish = false

[dependencies]
alloy = { version = "1", default-features = false, features = ["std", "contract", "providers", "rpc-types", "sol-types", "network", "eips", "transports"] }
alloy-primitives = "=1.7.3"
eyre = "0.6"
lazy_static = "1"
serde = { version = "1", features = ["derive"] }
tokio = { version = "1", features = ["macros", "rt-multi-thread"] }
toml = "0.9"
tracing = "0.1"
tracing-subscriber = "0.3"
uniswap_v3_math = "=0.6.2"
