[package]
name = "syosetu_epub"
version = "0.1.0"
edition = "2021"
publish = false

[dependencies]
scraper = "*"
async-process = "*"
clap = { version = "*", features = ["derive"] }
indicatif = "*"
reqwest = "*"
tempfile = "*"
tokio = { version = "*", features = ["full"] }
