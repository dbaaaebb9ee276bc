[package]
name = "knotty"
version = "0.1.0"
edition = "2021"
publish = false

[dependencies]
pulldown-cmark = { version = "*", default-features = false }
serde = { version = "1", features = ["derive"] }
serde_json = "1"
toml = "*"
thiserror = "*"
anyhow = "1"
tracing = "*"
tracing-subscriber = { version = "*", features = ["env-filter"] }
