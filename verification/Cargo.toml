[package]
name = "caffeine_cf"
version = "0.1.0"
edition = "2021"
publish = false

[dependencies]
atty = "=0.2.14"
clap = "=2.34.0"
codeforces-api = { version = "=0.3.4", features = ["serde_yaml"] }
directories = "=3.0.2"
failure = "=0.1.8"
headless_chrome = "=0.9.0"
serde = { version = "=1.0.229", features = ["derive"] }
serde_yaml = "=0.8.26"
