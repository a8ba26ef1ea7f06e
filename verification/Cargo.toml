[package]
name = "rustle"
version = "0.1.0"
edition = "2021"
publish = false

[dependencies]
dashmap = "=6.2.1"
hmac = "=0.12.1"
sha2 = "=0.10.9"
base64 = "=0.22.1"
rand = "=0.8.8"
argon2 = "=0.5.3"
pasetors = "=0.6.8"
trie-rs = "=0.4.2"
uuid = { version = "=1.29.0", features = ["v4"] }
chrono = "=0.4.45"
serde = { version = "=1.0.229", features = ["derive"] }
serde_json = "=1.0.154"
toml = "=0.8.23"
tokio = { version = "=1.54.1", features = ["rt", "macros", "fs", "io-util", "sync"] }
tokio-util = { version = "=0.7.20", features = ["io"] }
futures-util = "=0.3.34"
ntex = { version = "=2.18.0", features = ["tokio"] }
sqlx = { version = "=0.7.4", default-features = false, features = ["mysql", "runtime-tokio", "macros", "chrono"] }
tracing = "=0.1.44"
tracing-subscriber = "=0.3.23"
clap = { version = "=4.6.7", features = ["derive"] }
once_cell = "=1.21.4"
validator = { version = "=0.16.1", features = ["derive"] }
lettre = { version = "=0.11.23", default-features = false, features = ["builder", "smtp-transport", "rustls-tls"] }
ammonia = "=4.2.4"
unic-langid = "0.9"
