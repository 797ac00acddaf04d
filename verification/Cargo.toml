[package]
name = "docgen-rs"
version = "0.1.0"
edition = "2021"
publish = false

[dependencies]
similar = "2"
git2 = { version = "0.20", default-features = false }
ratatui = "0.29"
crossterm = "0.28"
clap = "4"
rfd = { version = "0.15", default-features = false, features = ["xdg-portal", "tokio"] }
serde = { version = "1", features = ["derive"] }
serde_json = "1"
dirs = "6"
dotenv = "0.15"
reqwest = { version = "0.12", default-features = false, features = ["json", "rustls-tls"] }
