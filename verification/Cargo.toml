[package]
name = "rusty_discord"
version = "0.1.0"
edition = "2021"
publish = false

[dependencies]
crossterm = "0.28"
dotenvy = "0.15"
ratatui = "0.29"
serde = { version = "1", features = ["derive"] }
serenity = "0.11"
tokio = { version = "1", features = ["rt-multi-thread", "macros"] }
toml = "0.8"
