[package]
name = "rpc_dispatch"
version = "0.1.0"
edition = "2021"
publish = false

[dependencies]
futures = "0.3"
http = "0.2"
serde = { version = "1", features = ["derive"] }
serde_json = "1"
