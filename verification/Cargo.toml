[package]
name = "planbot"
version = "0.1.0"
edition = "2021"
publish = false

[dependencies]
serde_json = "1"
scraper = "*"
reqwest = { version = "0.12", features = ["json", "stream"] }
rocket = { version = "0.5", features = ["json"] }
tokio = { version = "1", features = ["full"] }
futures = "0.3"
clap = { version = "4", features = ["derive"] }
