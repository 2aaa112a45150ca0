[package]
name = "persistent"
version = "0.1.0"
edition = "2021"
publish = false

[dependencies]
serde = { version = "1", features = ["derive"] }
serde_json = "1"
toml = "0.8"
ron = "0.8"
serde_yaml = "0.9"
serde_ini = "0.2"
bincode = "1"
log = "0.4"
thiserror = "1"
