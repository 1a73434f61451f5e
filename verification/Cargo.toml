[package]
name = "weather_report"
version = "0.1.0"
edition = "2021"
publish = false

[dependencies]
anyhow = "1"
chrono = "0.4"
image = { version = "0.25", default-features = false, features = ["png"] }
msedge-tts = "*"
reqwest = { version = "0.12", default-features = false, features = ["blocking", "rustls-tls"] }
scraper = "*"
serde_json = "1"
