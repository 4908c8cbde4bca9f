[package]
name = "powchain"
version = "0.1.0"
edition = "2021"
publish = false

[dependencies]
bincode = "=0.9.2"
chrono = { version = "=0.4.45", default-features = false, features = ["now"] }
log = "=0.4.34"
pnet = "=0.35.0"
reqwest = { version = "=0.12.28", default-features = false, features = ["json"] }
rocket = { version = "=0.5.2", features = ["json"] }
rust-crypto = "=0.2.36"
serde = { version = "=1.0.229", features = ["derive"] }
uuid = { version = "=1.29.0", features = ["v4"] }
