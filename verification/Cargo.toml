[package]
name = "chat_tui"
version = "0.1.0"
edition = "2021"
publish = false

[dependencies]
color-eyre = "0.6"
crossterm = "0.28"
ratatui = "0.29"
reqwest = "0.12"
serde = { version = "1", features = ["derive"] }
serde_json = "1"
strum = { version = "0.26", features = ["derive"] }
textwrap = "0.16"
tokio = { version = "1", features = ["full"] }
tracing = "0.1"
tui-textarea = "0.7"
