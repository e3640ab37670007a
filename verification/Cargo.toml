[package]
name = "grin_gui"
version = "0.1.0"
edition = "2021"
publish = false

[dependencies]
grin_core = "=5.5.2"
grin_wallet_libwallet = "=5.5.1"
grin_keychain = "=5.5.2"
grin_util = "=5.5.2"
grin_wallet_config = "=5.5.1"
anyhow = "=1.0.104"
dirs = "=2.0.2"
futures = "=0.3.34"
log = "=0.4.34"
serde = { version = "=1.0.229", features = ["derive"] }
serde_json = "=1.0.154"
serde_yaml = "0.9"
toml = "=0.5.11"
