[package]
name = "stp"
version = "0.1.0"
edition = "2021"
publish = false

[dependencies]
anyhow = "1"
base64 = "0.22"
clap = { version = "4", features = ["derive", "env"] }
hex = "0.4"
ratatui = "*"
serde = { version = "1", features = ["derive"] }
serde_json = { version = "1", features = ["preserve_order"] }
sha2 = "0.10"
thiserror = "*"
unicode-width = "*"
uuid = { version = "1", features = ["v4"] }
vt100 = "*"
