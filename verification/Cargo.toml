[package]
name = "corporate_assistant"
version = "0.1.0"
edition = "2021"
publish = false

[dependencies]
regex = "1"
chrono = "0.4"
num-traits = "0.2"
serde = { version = "1", features = ["derive"] }
serde_json = "1"
toml = "0.5"
dirs = "3"
reqwest = { version = "0.11", default-features = false, features = ["blocking", "json", "rustls-tls"] }
lettre = { version = "0.10", default-features = false, features = ["builder", "smtp-transport", "rustls-tls"] }
clap = "2"
futures = "0.3"
rand = "0.8"
wav = "1"
log = "0.4"
