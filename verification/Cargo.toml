[package]
name = "openrpc_bindgen"
version = "0.1.0"
edition = "2021"
publish = false

[dependencies]
anyhow = "1"
askama = "0.12"
clap = { version = "4", features = ["derive"] }
schemars = { version = "0.8", features = ["preserve_order"] }
serde = { version = "1", features = ["derive"] }
serde_json = "1"
