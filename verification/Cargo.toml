[package]
name = "nanoterm"
version = "0.1.0"
edition = "2021"
publish = false

[dependencies]
image = "0.24"
crossterm = "0.25"
tui = "0.19"
serde = { version = "1", features = ["derive"] }
reqwest = { version = "0.11", default-features = false, features = ["blocking", "json", "rustls-tls"] }
