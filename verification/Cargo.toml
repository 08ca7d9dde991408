[package]
name = "alpaca_types"
version = "0.1.0"
edition = "2021"
publish = false

[dependencies]
http-serde = "*"
serde = { version = "1", features = ["derive"] }
serde_json = "1"
time = { version = "0.3", features = ["formatting", "parsing", "serde"] }
uuid = { version = "1", features = ["serde"] }
