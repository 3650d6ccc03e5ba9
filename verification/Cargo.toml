[package]
name = "ntz-proto"
version = "0.1.0"
edition = "2021"
publish = false

[dependencies]
axum = "0.7"
chacha20poly1305 = "0.10"
chrono = "0.4"
clap = { version = "4", features = ["derive"] }
env_logger = "0.11"
hkdf = "0.12"
ml-kem = { version = "0.2", features = ["deterministic"] }
rand_core = { version = "0.6", features = ["getrandom"] }
reqwest = { version = "0.12", default-features = false, features = ["blocking", "json", "rustls-tls"] }
rusqlite = { version = "0.32", features = ["bundled"] }
serde = { version = "1", features = ["derive"] }
serde_json = "1"
sha2 = "0.10"
tokio = { version = "1", features = ["rt-multi-thread", "macros", "net", "sync"] }
tun-rs = { version = "2", features = ["async_tokio"] }
uuid = { version = "1", features = ["v4"] }
x25519-dalek = { version = "2", features = ["static_secrets"] }
