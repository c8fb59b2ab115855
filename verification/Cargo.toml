[package]
name = "discordstreamer"
version = "0.1.0"
edition = "2021"
publish = false

[dependencies]
discortp = { version = "*", features = ["discord-full"] }
xsalsa20poly1305 = "0.9"
gstreamer = "0.20"
once_cell = "1"
parking_lot = "0.12"
serde = { version = "1", features = ["derive"] }
serde_plain = "1"
tokio = { version = "1", features = ["rt-multi-thread"] }
