[package]
name = "boar_bot"
version = "0.1.0"
edition = "2021"
publish = false

[dependencies]
ricq = "*"
tokio = { version = "*", features = ["macros", "rt", "fs", "time"] }
serde_json = "*"
bytes = "*"
tracing = "*"
tracing-subscriber = "*"
async-trait = "*"
