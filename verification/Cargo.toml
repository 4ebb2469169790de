[package]
name = "music_player"
version = "0.1.0"
edition = "2021"
publish = false

[dependencies]
anyhow = "*"
dirs = "*"
reqwest = { version = "*", default-features = false, features = ["rustls-tls", "json"] }
rodio = "*"
serde = { version = "1", features = ["derive"] }
serde_json = "1"
tokio = { version = "1", features = ["rt-multi-thread", "sync", "time", "macros"] }
toml = "*"
