[package]
name = "wow_bot"
version = "0.1.0"
edition = "2021"
publish = false

[dependencies]
sha1 = "0.10"
md-5 = "0.10"
anyhow = "1"
tokio = { version = "1", features = ["full"] }
tracing = "0.1"
serde = { version = "1", features = ["derive"] }
serde_json = "1"
wow_srp = { version = "*", features = ["wrath-header"] }
wow_login_messages = { version = "*", features = ["tokio"] }
wow_world_messages = { version = "*", features = ["wrath", "tokio"] }
tentacli = "*"
