[package]
name = "counter_worker"
version = "0.1.0"
edition = "2021"
publish = false

[dependencies]
anyhow = "1"
async-graphql = "*"
async-std = "1"
async-trait = "0.1"
console_log = "*"
graphql_client = { version = "*", default-features = false }
js-sys = "0.3"
log = "0.4"
serde = { version = "1", features = ["derive"] }
serde_json = "1"
serde-wasm-bindgen = "*"
thiserror = "*"
tide = { version = "0.16", default-features = false }
worker = "*"
