[package]
name = "osm_downloader"
version = "0.1.0"
edition = "2021"
publish = false

[dependencies]
anyhow = "*"
crossterm = { version = "=0.28.1", features = ["event-stream"] }
directories = "*"
duckdb = "*"
futures = "*"
ratatui = "=0.28.1"
reqwest = { version = "*", default-features = false, features = ["rustls-tls", "stream"] }
tokio = { version = "*", features = ["full"] }
tracing = "*"
tracing-appender = "*"
tracing-subscriber = "*"
tui-textarea = "=0.6.1"
