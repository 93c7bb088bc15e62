[package]
name = "mostrix"
version = "0.1.0"
edition = "2021"
publish = false

[dependencies]
anyhow = "1"
base64 = "*"
chacha20poly1305 = "*"
chrono = "*"
dirs = "*"
futures = "*"
lightning-invoice = "*"
lnurl-rs = { version = "*", default-features = false }
log = "*"
mostro-core = "*"
nostr-sdk = "*"
reqwest = { version = "*", default-features = false, features = ["json", "rustls-tls"] }
serde_json = "*"
sqlx = { version = "*", default-features = false, features = ["sqlite", "runtime-tokio"] }
tokio = { version = "1", features = ["full"] }
uuid = { version = "1", features = ["v4"] }
