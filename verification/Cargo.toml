[package]
name = "forgemod"
version = "0.1.0"
edition = "2021"
publish = false

[dependencies]
bytes = "=1.12.1"
semver = "=1.0.28"
serde = { version = "=1.0.229", features = ["derive"] }
serde_json = "=1.0.154"
slug = "=0.1.6"
xz2 = "=0.1.7"

[dev-dependencies]
bincode = "=1.3.3"
