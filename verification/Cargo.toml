[package]
name = "atticus"
version = "0.1.0"
edition = "2021"
publish = false

[dependencies]
im = { version = "15", features = ["serde"] }
serde = { version = "1", features = ["derive"] }
serde_json = "1"
jsonformat = "2"
reqwest = { version = "0.12", default-features = false, features = ["blocking", "rustls-tls"] }
crossbeam-channel = "0.5"
nsvg = { version = "0.5", default-features = false }
