[package]
name = "crawl_agent"
version = "0.1.0"
edition = "2021"
publish = false

[dependencies]
url = "*"
serde_json = "*"
scraper = "*"
uuid = { version = "*", features = ["v4"] }
chrono = "*"
serde = { version = "*", features = ["derive"] }
toml = "*"
tokio = { version = "*", features = ["rt-multi-thread", "macros", "time", "sync"] }
headless_chrome = "=0.9.0"
dotenv = "*"
rand = "*"
once_cell = "*"
tiktoken-rs = "*"
