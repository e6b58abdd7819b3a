[package]
name = "gated_channel"
version = "0.1.0"
edition = "2021"
publish = false

[dependencies]
serenity = { version = "0.10", features = ["collector"] }
tokio = { version = "1", features = ["macros", "rt-multi-thread"] }
futures = "0.3"
