[package]
name = "shiny_live_history_diagram"
version = "0.1.0"
edition = "2021"
publish = false

[dependencies]
anyhow = "1"
chrono = { version = "0.4", features = ["serde"] }
clap = { version = "4", features = ["derive"] }
derive_more = { version = "2", features = ["display", "from", "from_str"] }
env_logger = "0.11"
fs-err = "3"
log = "0.4"
percent-encoding = "2"
reqwest = { version = "0.12", features = ["blocking"] }
scraper = "0.23"
serde = { version = "1", features = ["derive"] }
serde_json = "1"
