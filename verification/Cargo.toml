[package]
name = "rust_control_panel_template"
version = "0.1.0"
edition = "2021"
publish = false

[dependencies]
anyhow = "=1.0.104"
chrono = "=0.4.45"
clap = { version = "=4.6.7", features = ["derive", "env"] }
http = "=1.5.0"
jsonwebtoken = "=10.4.0"
jwks = "=0.5.3"
log = "=0.4.35"
poem = "=3.1.12"
rust-embed = "=8.13.0"
serde = { version = "=1.0.229", features = ["derive"] }
serde_json = "=1.0.154"
tokio = { version = "=1.54.1", features = ["full"] }
tracing-subscriber = { version = "=0.3.23", features = ["env-filter"] }
uuid = { version = "=1.29.1", features = ["v4"] }
welds = { version = "=0.5.2", features = ["sqlite", "mysql", "postgres", "migrations", "check"] }
