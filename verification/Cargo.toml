[package]
name = "transporter"
version = "0.1.0"
edition = "2021"
publish = false

[dependencies]
rust-crypto = "=0.2.36"
reqwest = { version = "=0.13.5", default-features = false, features = ["blocking"] }
serde = { version = "=1.0.229", features = ["derive"] }
serde_json = "=1.0.151"
clap = "=4.6.7"
log = "=0.4.34"
fern = "=0.7.1"
sentry = { version = "=0.49.3", default-features = false }
openssl-probe = "=0.2.1"
