[package]
name = "vrc_gamelog"
version = "0.1.0"
edition = "2021"
publish = false

[dependencies]
chrono = "*"
config = "*"
serde = { version = "*", features = ["derive"] }
surrealdb = "*"
tokio = { version = "*", features = ["macros", "rt-multi-thread"] }
