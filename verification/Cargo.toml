[package]
name = "dbterm"
version = "0.1.0"
edition = "2021"
publish = false

[dependencies]
color-eyre = "=0.6.5"
crossterm = "=0.29.0"
dirs = "=5.0.1"
ratatui = "=0.30.2"
serde = { version = "=1.0.229", features = ["derive"] }
serde_json = "=1.0.154"
sqlx = { version = "=0.7.4", default-features = false, features = ["runtime-tokio", "postgres"] }
tokio = { version = "=1.54.1", features = ["full"] }
tui-textarea = { version = "=0.4.0", default-features = false, features = ["no-backend"] }
