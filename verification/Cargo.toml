[package]
name = "ledger_quotes"
version = "0.1.0"
edition = "2021"
publish = false

[dependencies]
chrono = "*"
home = "*"
rayon = "*"
reqwest = { version = "*", default-features = false, features = ["blocking"] }
scraper = "*"
serde_yaml = "*"
