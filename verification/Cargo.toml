[package]
name = "televideo"
version = "0.1.0"
edition = "2021"
publish = false

[dependencies]
anyhow = "=1.0.104"
chrono = "=0.4.45"
crossterm = "=0.28.1"
image = { version = "=0.25.10", default-features = false, features = ["png", "jpeg", "gif"] }
ratatui = { version = "=0.29.0", default-features = false, features = ["crossterm"] }
ratatui-image = { version = "=4.2.0", default-features = false, features = ["crossterm"] }
reqwest = { version = "=0.12.28", default-features = false, features = ["blocking", "rustls-tls"] }
scraper = "=0.23.1"

[dev-dependencies]
regex = "=1.13.1"
