[package]
name = "torii"
version = "0.1.0"
edition = "2021"
publish = false

[dependencies]
unicode-width = "0.2"
semver = "1"
sha2 = "0.10"
pulldown-cmark = { version = "0.13", default-features = false }
ratatui = "0.29"
crossterm = { version = "0.28", features = ["event-stream"] }
serde = { version = "1", features = ["derive"] }
serde_json = "1"
serde_yaml = "0.9"
tokio = { version = "1", features = ["full"] }
tokio-util = "0.7"
uuid = { version = "1", features = ["v4"] }
anyhow = "1"
async-trait = "0.1"
futures-util = "0.3"
reqwest = { version = "0.12", default-features = false, features = ["json", "stream", "rustls-tls"] }
flate2 = "1"
tar = "0.4"
zip = { version = "2", default-features = false, features = ["deflate"] }
fs2 = "0.4"
image = { version = "0.25", default-features = false, features = ["png", "jpeg", "gif", "webp"] }
png = "0.17"
arboard = "3"
clipboard-rs = "0.2"
