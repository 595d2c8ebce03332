[package]
name = "herder"
version = "0.1.5"
edition = "2021"
publish = false

[dependencies]
curl = "0.4"
error-chain = "0.12"
futures = "0.1"
hyper = "0.11"
serde = "1"
serde_derive = "1"
serde_json = "1"
serde_urlencoded = "0.5"
tokio-core = "0.1"
url = "1"
