[package]
name = "sheet_shuffle"
version = "0.1.0"
edition = "2021"
publish = false

[dependencies]
axum = "0.7"
eyre = "0.6"
google-sheets4 = "5"
rand = "0.8"
serde = { version = "1", features = ["derive"] }
serde_json = "1"
tokio = { version = "1", features = ["full"] }
toml = "0.8"
tower-http = { version = "0.5", features = ["cors"] }
