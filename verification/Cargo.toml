[package]
name = "prql_translator"
version = "0.1.0"
edition = "2021"
publish = false

[dependencies]
prql-compiler = "*"
serde = { version = "1", features = ["derive"] }
serde_json = "1"
axum = "0.6"
tokio = { version = "1", features = ["macros", "rt-multi-thread"] }
