[package]
name = "aquachain"
version = "0.1.0"
edition = "2021"
publish = false

[dependencies]
serde_json = "1"
sha2 = "0.10"
hex = "0.4"
serde = { version = "1", features = ["derive"] }
thiserror = "1"
sylvia = "1.3"
cosmwasm-schema = "2.2"
cw-storage-plus = "2.0"

[dev-dependencies]
chrono = "0.4"
