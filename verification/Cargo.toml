[package]
name = "rich_presence"
version = "0.1.0"
edition = "2021"
publish = false

[dependencies]
discord-rich-presence = "*"
serde = { version = "*", features = ["derive"] }
anyhow = "*"
