[package]
name = "rspotify"
version = "0.1.0"
edition = "2021"
publish = false

[dependencies]
chrono = "=0.4.45"
md-5 = "0.10"
digest = "=0.10.7"
cast5 = "=0.12.0"
serde = { version = "=1.0.229", features = ["derive"] }
serde_json = "=1.0.151"
futures = "=0.3.34"
async-stream = "=0.3.6"
