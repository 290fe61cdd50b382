[package]
name = "rogger"
version = "0.1.0"
edition = "2021"
publish = false

[dependencies]
tokio = { version = "1", default-features = false, features = ["time"] }
sha2 = "0.10"
hex = "0.4"
rand = "0.8"
markdown = "1.0.0-alpha.10"
rusqlite = { version = "0.29", features = ["bundled"] }
serde = { version = "1", features = ["derive"] }
actix-web = "4"
askama = "0.12"
