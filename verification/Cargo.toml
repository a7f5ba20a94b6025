[package]
name = "blob_client"
version = "0.1.0"
edition = "2021"
publish = false

[dependencies]
reqwest = { version = "0.11", default-features = false, features = ["stream"] }
url = "2"
sha2 = "0.10"
futures = "0.3"
log = "0.4"
