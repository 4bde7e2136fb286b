[package]
name = "roblox_discord_presence"
version = "0.1.0"
edition = "2021"
publish = false

[dependencies]
dirs = "5"
discord-rich-presence = "0.2"
regex = "1"
reqwest = { version = "0.12", default-features = false, features = ["json", "default-tls"] }
serde = { version = "1", features = ["derive"] }
tokio = { version = "1", features = ["rt-multi-thread", "time", "sync", "macros"] }
toml = "0.8"
