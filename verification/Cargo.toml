[package]
name = "seekergate"
version = "0.1.0"
edition = "2021"
publish = false

[dependencies]
axum = "*"
reqwest = { version = "*", default-features = false, features = ["json"] }
serde_json = "*"
tokio = { version = "*", features = ["macros", "rt-multi-thread", "signal", "net"] }
tracing = "*"
tracing-subscriber = "*"
