[package]
name = "grammarlens"
version = "0.1.0"
edition = "2021"
publish = false

[dependencies]
serde = { version = "1", features = ["derive"] }
serde_json = "1"
reqwest = { version = "0.12", default-features = false, features = ["json", "rustls-tls"] }
arboard = "3"
enigo = "0.2"
keyring = "2"
log = "0.4"
