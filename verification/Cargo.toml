[package]
name = "wikilook"
version = "0.1.0"
edition = "2021"
publish = false

[dependencies]
url = "*"
serde = { version = "*", features = ["derive"] }
serde_json = "*"
surf = { version = "*", default-features = false, features = ["h1-client-rustls"] }
async-std = "*"
seahorse = "*"
