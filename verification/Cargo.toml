[package]
name = "tuidal"
version = "0.1.0"
edition = "2021"
publish = false

[dependencies]
anyhow = "1"
axum = "0.8"
crossterm = "0.28"
dirs = "6"
image = { version = "0.25", default-features = false, features = ["png", "jpeg"] }
open = "5"
ratatui = "0.29"
ratatui-image = "5"
reqwest = { version = "0.12", default-features = false, features = ["rustls-tls"] }
serde = { version = "1", features = ["derive"] }
serde_json = "1"
tokio = { version = "1", features = ["rt-multi-thread", "macros", "sync", "time", "process", "io-util", "net"] }
zbus = { version = "5", default-features = false, features = ["tokio"] }
