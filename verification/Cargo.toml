[package]
name = "launchpad"
version = "0.1.0"
edition = "2021"
publish = false

[dependencies]
plist = "1"
serde = { version = "1", features = ["derive"] }
serde_json = "1"
libc = "0.2"
thiserror = "2"
reqwest = { version = "0.12", default-features = false, features = ["blocking", "json", "rustls-tls"] }
