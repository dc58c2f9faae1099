[package]
name = "serdeconv"
version = "0.1.0"
edition = "2021"
publish = false

[dependencies]
serde = "=1.0.229"
serde_json = { version = "=1.0.151", features = ["preserve_order"] }
toml = { version = "=1.1.6", features = ["preserve_order"] }
