[package]
name = "akula_middleware"
version = "0.1.0"
edition = "2021"
publish = false

[dependencies]
sha3 = "0.10.9"
ethers-core = "2.0.14"
ethers-providers = "2.0.14"
anyhow = "1.0.104"
async-trait = "0.1.92"
thiserror = "1.0.69"
