[package]
name = "zarrs_n5"
version = "0.1.0"
edition = "2021"
publish = false

[dependencies]
zarrs = { version = "*", default-features = false, features = ["gzip", "bz2", "async"] }
zarrs_codec = "*"
serde = { version = "1", features = ["derive"] }
serde_json = "1"
bytes = "1"
thiserror = "*"
async-trait = "*"
inventory = "*"
