[package]
name = "warehousing_smart_contract"
version = "0.1.0"
edition = "2021"
publish = false

[dependencies]
cosmwasm-schema = "=2.3.5"
cosmwasm-std = "=2.2.2"
cw2 = "=2.0.0"
cw-storage-plus = "=2.0.0"
provwasm-std = { version = "=2.8.0", features = ["cosmos-nft"] }
thiserror = "=1.0.69"
