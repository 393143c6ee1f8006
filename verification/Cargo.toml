[package]
name = "unvenv"
version = "0.1.0"
edition = "2021"
publish = false

[dependencies]
anyhow = "*"
clap = { version = "*", features = ["derive"] }
clap_complete = "*"
colored = "*"
flate2 = "*"
git2 = { version = "*", default-features = false }
hex = "*"
reqwest = { version = "*", default-features = false, features = ["blocking", "json", "rustls-tls"] }
serde_json = "*"
sha2 = "*"
tar = "*"
tempfile = "*"
walkdir = "*"
