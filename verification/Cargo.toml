[package]
name = "postgres_manager"
version = "0.1.0"
edition = "2021"
publish = false

[dependencies]
aws-sdk-s3 = { version = "*", default-features = false, features = ["behavior-version-latest", "rt-tokio"] }
chrono = "*"
tokio = { version = "*", features = ["rt-multi-thread", "macros", "fs", "io-util", "time", "net"] }
crossterm = "*"
ratatui = "*"
clap = { version = "*", features = ["derive", "env"] }
tempfile = "*"
anyhow = "*"
tokio-postgres = "*"
