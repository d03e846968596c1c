[package]
name = "state_validator"
version = "0.1.0"
edition = "2021"
publish = false

[dependencies]
async-trait = "=0.1.92"
config = { version = "0.10", default-features = false, features = ["toml"] }
ethers = "=0.1.3"
Inflector = { version = "=0.11.4", default-features = false }
serde = { version = "=1.0.229", features = ["derive"] }
serde_json = "=1.0.154"
