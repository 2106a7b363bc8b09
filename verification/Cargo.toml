[package]
name = "gm48_scraper"
version = "0.1.0"
edition = "2021"
publish = false

[dependencies]
anyhow = "1"
clap = { version = "4", features = ["derive"] }
colored-print = "*"
humansize = "2"
reqwest = "0.12"
sanitize-filename = "*"
scraper = "*"
tokio = { version = "1", features = ["macros", "rt-multi-thread"] }
url = "2"
urlencoding = "2"
zip = "*"
