[package]
name = "ahridocs"
version = "0.1.0"
edition = "2021"
publish = false

[dependencies]
hotwatch = "0.4"
serde = { version = "1", features = ["derive"] }
serde_json = "1"
tokio = { version = "1", features = ["macros", "rt-multi-thread"] }
