[package]
name = "wingbird_patch"
version = "0.1.0"
edition = "2021"
publish = false

[dependencies]
blake3 = "1"
qbsdiff = "1"
urlencoding = "2"
serde = { version = "1", features = ["derive"] }
serde_json = "1"
anyhow = "1"
log = "0.4"
reqwest = { version = "0.12", default-features = false, features = ["blocking", "json", "rustls-tls"] }
