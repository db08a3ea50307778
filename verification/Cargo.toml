[package]
name = "listing_crawler"
version = "0.1.0"
edition = "2021"
publish = false

[dependencies]
chrono = "=0.4.45"
reqwest = { version = "=0.12.28", default-features = false, features = ["rustls-tls"] }
scraper = "=0.29.0"
shuttle-runtime = "=0.57.0"
shuttle-shared-db = { version = "=0.57.0", features = ["postgres", "sqlx"] }
sqlx = { version = "0.8", default-features = false, features = ["postgres", "runtime-tokio", "chrono"] }
tokio = { version = "=1.54.1", features = ["time"] }
tracing = "=0.1.44"
