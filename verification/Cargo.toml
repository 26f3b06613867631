[package]
name = "lobtui"
version = "0.1.0"
edition = "2021"
publish = false

[dependencies]
scraper = "*"
ratatui = "*"
crossterm = "*"
open = "*"
clap = "*"
reqwest = { version = "*", default-features = false, features = ["blocking"] }
