[package]
name = "dash89"
version = "0.1.0"
edition = "2021"
publish = false

[dependencies]
rmpv = "1"
fuzzy-matcher = "0.3"
serde = { version = "1", features = ["derive"] }
toml = "0.8"
user_dirs = "*"
ratatui = "0.29"
crossterm = "0.28"
clipboard = "0.5"
log = "0.4"
simple-logging = "2"
tokio = { version = "1", features = ["rt-multi-thread", "macros", "sync", "time"] }
