[package]
name = "heart_rate"
version = "0.1.0"
edition = "2021"
publish = false

[dependencies]
async-trait = "0.1"
bluest = "*"
futures-lite = "*"
tokio = { version = "1", features = ["macros", "rt-multi-thread"] }
