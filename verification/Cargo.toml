[package]
name = "demo_sqlite"
version = "0.1.0"
edition = "2021"
publish = false

[dependencies]
hex = "0.4"
reqwest = { version = "0.12", default-features = false }
ratatui = { version = "0.29", features = ["serde"] }
tui-textarea = "0.7"
arboard = { version = "3", default-features = false }
clap = { version = "4", features = ["derive", "env"] }
tokio = { version = "1", features = ["full"] }
tracing = "0.1"
tracing-subscriber = { version = "0.3", features = ["env-filter"] }
serde = { version = "1", features = ["derive"] }
serde_json = "1"
directories = "5"
fs2 = "0.4"
rand = "0.9"
zeroize = "1"
