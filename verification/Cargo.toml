[package]
name = "token-manager"
version = "0.1.0"
edition = "2021"
publish = false

[dependencies]
anyhow = "1"
atomic-write-file = "*"
axum = "0.8"
axum-extra = { version = "*", features = ["cookie-private"] }
chacha20poly1305 = { version = "*", features = ["getrandom"] }
hex = "0.4"
listenfd = "1"
oauth2 = "5"
serde = { version = "1", features = ["derive"] }
serde_derive = "1"
tarpc = "*"
time = { version = "*", features = ["serde-well-known"] }
tokio = { version = "1", features = ["fs", "io-util", "net", "rt-multi-thread", "sync", "time"] }
tokio-macros = "2"
tokio-util = "0.7"
toml = "*"
