[package]
name = "rust_notify"
version = "0.1.0"
edition = "2021"
publish = false

[dependencies]
tera = "1"
serde = { version = "1", features = ["derive"] }
serde_json = "1"
toml = "*"
reqwest = { version = "*", default-features = false, features = ["json"] }
tokio = { version = "1", features = ["macros", "rt-multi-thread", "time"] }
lettre = "0.9"
lettre_email = "0.9"
anyhow = "1"
tracing = "*"
tracing-subscriber = { version = "*", features = ["env-filter"] }
