[package]
name = "router"
version = "0.1.0"
edition = "2021"
publish = false

[dependencies]
serde_json = "1"
serde = { version = "1", features = ["derive"] }
tokio = { version = "1", features = ["rt", "macros"] }
futures = "0.3"
async-trait = "0.1"
time = "0.3"
