[package]
name = "lunatic_log"
version = "0.1.0"
edition = "2021"
publish = false

[dependencies]
ansi_term = "0.12"
chrono = { version = "0.4", default-features = false, features = ["clock", "std"] }
lunatic = "*"
lunatic-cached-process = "*"
lunatic-message-request = "*"
serde = { version = "1", features = ["derive"] }
serde_json = "1"
