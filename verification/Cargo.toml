[package]
name = "wvwasi"
version = "0.1.0"
edition = "2021"
publish = false

[dependencies]
serde_json = "=1.0.154"
anyhow = "=1.0.104"
tokio = { version = "=1.54.1", features = ["macros", "rt"] }
wasi-common = "=10.0.1"
wiggle = "=10.0.1"
wasi-cap-std-sync = "=10.0.1"
