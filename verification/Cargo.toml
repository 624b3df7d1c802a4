[package]
name = "qbit"
version = "0.1.0"
edition = "2021"
publish = false

[dependencies]
url = "2"
log = "0.4"
reqwest = { version = "0.12", default-features = false, features = ["cookies", "multipart", "rustls-tls"] }
reqwest_cookie_store = "0.8"
