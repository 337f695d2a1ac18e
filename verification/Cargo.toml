[package]
name = "thrpg"
version = "0.1.0"
edition = "2021"
publish = false

[dependencies]
toml = "*"
uuid = "*"
chrono = "0.4"
rand = "*"
tokio = { version = "1", features = ["fs", "rt-multi-thread", "macros"] }
