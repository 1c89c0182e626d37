[package]
name = "mocha_tabs"
version = "0.1.0"
edition = "2021"
publish = false

[dependencies]
rand = "=0.8.8"
tween = "=2.2.0"
serde = { version = "=1.0.229", features = ["derive"] }
serde_json = "=1.0.154"
walkdir = "=2.5.0"
tokio = { version = "=1.54.1", features = ["fs", "io-util", "rt", "rt-multi-thread", "macros", "sync"] }
open = "=5.4.5"
whoami = "=1.6.1"
tauri-utils = { version = "1", default-features = false }
