[package]
name = "yd"
version = "0.1.0"
edition = "2021"
publish = false

[dependencies]
scraper = "=0.22.0"
reqwest = { version = "0.12", features = ["json"] }
serde = { version = "1", features = ["derive"] }
clap = { version = "4", features = ["derive"] }
tokio = { version = "1", features = ["rt", "macros"] }
color-eyre = "0.6"
ratatui = "0.29"
chrono = "0.4"
diesel = { version = "2.2", features = ["sqlite", "chrono", "returning_clauses_for_sqlite_3_35"] }
dotenvy = "0.15"
home = "0.5"
