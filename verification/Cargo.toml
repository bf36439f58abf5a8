[package]
name = "market_relay"
version = "0.1.0"
edition = "2021"
publish = false

[dependencies]
ws = "*"
url = "*"
serde = { version = "1", features = ["derive"] }
serde_json = "1"
log = "0.4"
simplelog = "*"
dotenv = "*"
