[package]
name = "robrix"
version = "0.1.0"
edition = "2021"
publish = false

[dependencies]
rand = "0.8"
ruma = "*"
makepad-widgets = "*"
makepad-live-id = "*"
tokio = { version = "1", features = ["sync", "rt", "macros"] }
serde = { version = "1", features = ["derive"] }
serde_json = "1"
chrono = "0.4"
imghdr = "0.7"
mime_guess = "2"
tracing-subscriber = "0.3"
