[package]
name = "spotify_downloader"
version = "0.1.0"
edition = "2021"
publish = false

[dependencies]
anyhow = "*"
futures = "*"
indicatif = "*"
librespot = { version = "0.4", default-features = false }
tokio = { version = "*", features = ["rt-multi-thread", "sync", "time", "macros"] }
tokio-tungstenite = "*"
url = "*"

[dev-dependencies]
serde_json = "*"
