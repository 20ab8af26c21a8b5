[package]
name = "animu_server"
version = "0.1.0"
edition = "2021"
publish = false

[dependencies]
anitomy = "=0.2.0"
chrono = "=0.4.45"
pkce = "=0.2.0"
serde_json = "=1.0.154"
serde = { version = "=1.0.229", features = ["derive"] }
dotenv = "=0.15.0"
reqwest = { version = "=0.13.5", features = ["form"] }
rocket = "=0.5.2"
google-drive3 = "=7.0.0+20251218"
