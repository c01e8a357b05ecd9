[package]
name = "thanatonaut"
version = "0.6.4"
edition = "2021"
publish = false

[dependencies]
serde = { version = "1", features = ["derive"] }
serde_json = "1"
sha2 = "0.10"
hmac = "0.12"
aes-gcm = "0.10"
ratatui = "0.29"
crossterm = "0.28"
