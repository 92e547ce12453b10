[package]
name = "swarmd"
version = "0.1.0"
edition = "2021"
publish = false

[dependencies]
slug = "0.1"
base64 = "0.21"
log = "0.4"
serde = { version = "1", features = ["derive"] }
serde_json = "1"
serde_with = "3"
anyhow = "1"
thiserror = "1"
clap = { version = "4", features = ["derive"] }
console = "0.15"
tokio = { version = "1", features = ["rt-multi-thread", "macros", "sync", "time"] }
indicatif = "0.17"
chrono = { version = "0.4", default-features = false, features = ["clock", "std"] }
directories = "5"
reqwest = { version = "0.11", default-features = false, features = ["rustls-tls", "json"] }
axum = "0.6"
webbrowser = "0.8"
self_update = { version = "0.39", default-features = false, features = ["rustls", "archive-tar", "compression-flate2"] }
git2 = { version = "0.18", default-features = false }
notify = "6"
notify-debouncer-full = "0.3"
config = { version = "0.13", default-features = false, features = ["toml"] }
tracing = "0.1"
tracing-subscriber = { version = "0.3", features = ["env-filter", "fmt"] }
once_cell = "1"
cfg-if = "1"
