[package]
name = "musicbot"
version = "0.1.0"
edition = "2021"
publish = false

[dependencies]
dotenv = "=0.15.0"
log = "=0.4.34"
rspotify = { version = "=0.13.3", default-features = false, features = ["cli", "client-reqwest", "reqwest-rustls-tls"] }
serenity = { version = "=0.11.7", default-features = false, features = ["client", "gateway", "model", "rustls_backend"] }
tokio = { version = "=1.54.1", features = ["macros", "rt-multi-thread"] }
