[package]
name = "voice_type"
version = "0.1.0"
edition = "2021"
publish = false

[dependencies]
reqwest = { version = "0.12", default-features = false, features = ["blocking", "multipart", "json", "rustls-tls"] }
chrono = "0.4"
serde = { version = "1", features = ["derive"] }
serde_json = "1"
hound = "3"
crossbeam-channel = "0.5"
arboard = { version = "3", default-features = false }
tokio = { version = "1", features = ["rt"] }
