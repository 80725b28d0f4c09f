[package]
name = "oracle-court"
version = "0.1.0"
edition = "2021"
publish = false

[dependencies]
cosmwasm-std = "2"
cosmwasm-schema = "2"
cw2 = "2"
cw-storage-plus = "2"
serde = { version = "1", default-features = false, features = ["derive"] }
thiserror = "1"
