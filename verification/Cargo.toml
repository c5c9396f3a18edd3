[package]
name = "wallet_opt"
version = "0.1.0"
edition = "2021"
publish = false

[dependencies]
async-trait = "*"
clap = { version = "*", features = ["derive"] }
config = "*"
futures = "*"
serde = { version = "*", features = ["derive"] }
time = { version = "=0.3.55", features = ["macros", "serde-human-readable"] }
tokio = { version = "*", features = ["rt-multi-thread", "macros"] }
toml = "*"
yahoo_finance_api = "=5.0.0"
