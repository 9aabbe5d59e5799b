[package]
name = "presence_core"
version = "0.1.0"
edition = "2021"
publish = false

[dependencies]
cpal = "*"
base64 = "*"
dirs = "*"
toml = "*"
serde = { version = "*", features = ["derive"] }
serde_json = "*"

[dev-dependencies]
hound = "*"
