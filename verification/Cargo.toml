[package]
name = "blob_fetch"
version = "0.1.0"
edition = "2021"
publish = false

[dependencies]
azure_core = "0.4"
azure_identity = "0.5"
azure_storage = "0.5"
azure_storage_blobs = "0.5"
futures = "=0.3.34"
