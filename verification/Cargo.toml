[package]
name = "solcore"
version = "0.1.0"
edition = "2021"
publish = false

[dependencies]
bs58 = "*"
base64 = "*"
ed25519-dalek = "*"
sha2 = "*"
uuid = { version = "*", features = ["v4"] }
chrono = "*"
serde_json = "*"
rand = "*"
serde = { version = "*", features = ["derive"] }
tokio = { version = "*", features = ["rt", "sync", "time", "macros"] }
reqwest = { version = "*", default-features = false, features = ["json"] }
