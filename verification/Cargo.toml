[package]
name = "hn_preview"
version = "0.1.0"
edition = "2021"
publish = false

[dependencies]
chrono = "0.4"
chrono-tz = "0.10"
ctrlc = "3"
dotenv = "0.15"
html5ever = "0.27"
linkify = "0.10"
markup5ever_rcdom = "0.3"
reqwest = { version = "0.11", default-features = false, features = ["blocking", "json", "rustls-tls"] }
serde = { version = "1", features = ["derive"] }
serde_json = "1"
serenity = { version = "0.12", default-features = false, features = ["builder", "cache", "client", "gateway", "http", "model", "utils", "rustls_backend"] }
slog = "2"
slog-async = "2"
slog-envlogger = "2"
slog-scope = "4"
slog-stdlog = "4"
slog-term = "2"
tokio = { version = "1", features = ["macros", "rt-multi-thread"] }
url = "2"
