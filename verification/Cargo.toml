[package]
name = "slog_html"
version = "0.1.0"
edition = "2021"
publish = false

[dependencies]
chrono = "*"
slog = "1"
slog-stream = "1"
