[package]
name = "trader_daemon"
version = "0.1.0"
edition = "2021"
publish = false

[dependencies]
anyhow = "=1.0.104"
async-trait = "=0.1.92"
chrono = "=0.4.45"
env_logger = "=0.11.11"
hex = "=0.4.3"
hmac = "=0.12.1"
log = "=0.4.34"
mysql = { version = "=28.0.3", default-features = false, features = ["minimal-rust"] }
reqwest = { version = "=0.13.5", default-features = false }
serde_json = "=1.0.151"
sha2 = "=0.10.9"
tokio = { version = "=1.53.2", features = ["rt-multi-thread", "macros", "time"] }
toml = "=1.1.7"
