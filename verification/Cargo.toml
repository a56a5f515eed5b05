[package]
name = "here"
version = "0.1.0"
edition = "2021"
publish = false

[dependencies]
anyhow = "1"
axum = "0.6"
chrono = { version = "0.4", features = ["serde"] }
ctrlc = "3"
local-ip-address = "*"
rand = "0.8"
reqwest = { version = "0.11", default-features = false, features = ["json"] }
rust-crypto = "0.2"
serde = { version = "1", features = ["derive"] }
tinydb = "*"
tokio = { version = "1", features = ["macros", "rt-multi-thread"] }
toml = "0.5"
