[package]
name = "budget"
version = "0.1.0"
edition = "2021"
publish = false

[dependencies]
chrono = { version = "=0.4.45", features = ["serde"] }
regex = "=1.13.1"
clap = { version = "=4.6.7", features = ["derive"] }
crossterm = "=0.28.1"
dialoguer = { version = "=0.11.0", features = ["fuzzy-select", "completion"] }
sqlx = { version = "=0.8.6", default-features = false, features = ["sqlite", "runtime-tokio", "chrono"] }
tokio = { version = "=1.54.1", features = ["rt", "macros"] }
serde = { version = "=1.0.229", features = ["derive"] }
serde_json = "=1.0.154"
reqwest = { version = "=0.12.28", default-features = false, features = ["rustls-tls"] }
