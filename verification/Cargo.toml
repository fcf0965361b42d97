[package]
name = "tfcd"
version = "0.1.0"
edition = "2021"
publish = false

[dependencies]
anyhow = "*"
indicatif = "*"
platform-dirs = "*"
reqwest = { version = "*", default-features = false, features = ["blocking", "rustls-tls"] }
thirtyfour = "*"
zip-extensions = "*"
