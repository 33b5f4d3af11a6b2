[package]
name = "musicplayer"
version = "0.1.0"
edition = "2021"
publish = false

[dependencies]
base64 = "*"
tokio = { version = "*", features = ["process", "time", "rt-multi-thread", "macros", "io-util"] }
futures = "*"
serde = { version = "*", features = ["derive"] }
serde_json = "*"
walkdir = "*"
audiotags = "*"
