[package]
name = "openvtc"
version = "0.1.0"
edition = "2021"
publish = false

[dependencies]
chrono = "0.4"
crossterm = "0.29"
dtg-credentials = "0.13"
ratatui = { version = "0.30", default-features = false }
serde = { version = "1", features = ["derive"] }
serde_json = "1"
tokio = { version = "1", features = ["macros", "rt", "rt-multi-thread", "sync", "time"] }
tracing = "0.1"
tui-input = { version = "0.15", default-features = false, features = ["crossterm"] }
uuid = { version = "1", features = ["v4"] }
